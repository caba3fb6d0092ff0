use vstd::prelude::*;
use crate::stamp::{rfc2822_of, stamp_text, timestamp_line, year_and_time, Stamp};

verus! {

/// A logger that writes text to the console and, when one is attached, to a
/// file handle of type `F`.
///
/// At most one handle is held; attaching another drops the one held before.
pub struct Logger<F> {
    /// The attached file handle, if any.
    pub fl: Option<F>,
    /// Whether written text is echoed to the console.
    pub console: bool,
}

/// The logger that results from storing the outcome of an open attempt:
/// whatever handle was held before is dropped, even when the attempt failed.
pub open spec fn attached<F>(l: Logger<F>, opened: Option<F>) -> Logger<F> {
    Logger { fl: opened, console: l.console }
}

/// The logger that results from detaching its file.
pub open spec fn closed<F>(l: Logger<F>) -> Logger<F> {
    Logger { fl: None, console: l.console }
}

impl<F> Logger<F> {
    /// A logger with no file attached and console output on.
    pub fn new() -> (r: Self)
        ensures
            r.fl.is_none(),
            r.console,
    {
        Logger { fl: None, console: true }
    }

    /// A logger that owns the already open handle `f` and echoes to the
    /// console when `con` holds.
    pub fn init(f: F, con: bool) -> (r: Self)
        ensures
            r.fl == Some(f),
            r.console == con,
    {
        Logger { fl: Some(f), console: con }
    }

    /// Turns console output on or off.
    pub fn console(&mut self, con: bool)
        ensures
            final(self).console == con,
            final(self).fl == old(self).fl,
    {
        self.console = con;
    }

    /// Attaches `f`, dropping any handle held before.
    pub fn file(&mut self, f: F)
        ensures
            *final(self) == attached(*old(self), Some(f)),
    {
        self.fl = Some(f);
    }

    /// Attaches the handle in `f`, or detaches the file when `f` is `None`.
    pub fn opt(&mut self, f: Option<F>)
        ensures
            *final(self) == attached(*old(self), f),
    {
        self.fl = f;
    }

    /// Stores the outcome of an attempt to open a file and reports whether it
    /// succeeded. A failed attempt leaves no file attached.
    pub fn attach_opened(&mut self, opened: Option<F>) -> (r: bool)
        ensures
            *final(self) == attached(*old(self), opened),
            r == opened.is_some(),
            !r ==> final(self).fl.is_none(),
    {
        self.fl = opened;
        self.fl.is_some()
    }

    /// Whether a file is attached.
    pub fn has_file(&self) -> (r: bool)
        ensures
            r == self.fl.is_some(),
    {
        self.fl.is_some()
    }

    /// Detaches the file, dropping its handle.
    pub fn close(&mut self)
        ensures
            *final(self) == closed(*old(self)),
    {
        self.fl = None;
    }
}

/// How a standalone file is opened.
#[derive(Clone, Copy, Debug, PartialEq, Eq, Structural)]
pub enum OpenMode {
    /// Open an existing file for writing and discard its contents; a missing
    /// file is not created.
    Truncate,
    /// Open for writing after the existing contents, creating the file if it
    /// is missing.
    Append,
}

/// The options with which a file is opened.
#[derive(Clone, Copy, Debug, PartialEq, Eq, Structural)]
pub struct OpenFlags {
    pub write: bool,
    pub create: bool,
    pub truncate: bool,
    pub append: bool,
}

impl OpenFlags {
    /// The options for opening a standalone file in `mode`.
    pub fn for_mode(mode: OpenMode) -> (r: OpenFlags)
        ensures
            r.write,
            r.truncate == (mode == OpenMode::Truncate),
            r.append == (mode == OpenMode::Append),
            r.create == (mode == OpenMode::Append),
    {
        match mode {
            OpenMode::Truncate => OpenFlags { write: true, create: false, truncate: true, append: false },
            OpenMode::Append => OpenFlags { write: true, create: true, truncate: false, append: true },
        }
    }

    /// The options with which a logger opens its own file: always creating it
    /// if missing, and discarding or keeping the old contents as `mode` says.
    pub fn for_logger(mode: OpenMode) -> (r: OpenFlags)
        ensures
            r.write,
            r.create,
            r.truncate == (mode == OpenMode::Truncate),
            r.append == (mode == OpenMode::Append),
    {
        match mode {
            OpenMode::Truncate => OpenFlags { write: true, create: true, truncate: true, append: false },
            OpenMode::Append => OpenFlags { write: true, create: true, truncate: false, append: true },
        }
    }
}

/// Where one piece of text is sent.
#[derive(Clone, Copy, Debug, PartialEq, Eq, Structural)]
pub enum Sink {
    Console,
    File,
}

/// One piece of text to be sent to one sink.
#[derive(Debug)]
pub struct Emit {
    pub sink: Sink,
    pub text: String,
}

impl View for Emit {
    type V = (Sink, Seq<char>);

    open spec fn view(&self) -> (Sink, Seq<char>) {
        (self.sink, self.text@)
    }
}

/// What writing `text` sends, in order: the text to the console when console
/// output is on, then the same text to the file when one is attached.
pub open spec fn write_effects(console: bool, has_file: bool, text: Seq<char>) -> Seq<(Sink, Seq<char>)> {
    let to_console: Seq<(Sink, Seq<char>)> = if console { seq![(Sink::Console, text)] } else { seq![] };
    let to_file: Seq<(Sink, Seq<char>)> = if has_file { seq![(Sink::File, text)] } else { seq![] };
    to_console + to_file
}

/// The views of a list of emissions.
pub open spec fn emit_views(v: Seq<Emit>) -> Seq<(Sink, Seq<char>)> {
    v.map_values(|e: Emit| e@)
}

impl<F> Logger<F> {
    /// The emissions that writing `s` performs, in order.
    pub fn write_actions(&self, s: &str) -> (r: Vec<Emit>)
        ensures
            emit_views(r@) == write_effects(self.console, self.fl.is_some(), s@),
    {
        let mut v: Vec<Emit> = Vec::new();
        push_write(&mut v, self.console, self.fl.is_some(), s);
        v
    }

    /// The emissions that a timestamped write performs, in order: the
    /// timestamp line `stamp` is written first, then `s`, each going to the
    /// console and then to the file as [`Logger::write_actions`] says.
    pub fn ts_write_actions(&self, stamp: &str, s: &str) -> (r: Vec<Emit>)
        ensures
            emit_views(r@) == write_effects(self.console, self.fl.is_some(), stamp@)
                + write_effects(self.console, self.fl.is_some(), s@),
    {
        let mut v: Vec<Emit> = Vec::new();
        push_write(&mut v, self.console, self.fl.is_some(), stamp);
        push_write(&mut v, self.console, self.fl.is_some(), s);
        v
    }

    /// The emissions of a timestamped write at the time `t`: the timestamp
    /// line of `t`, which ends with its year and time of day, and then `s`.
    pub fn ts_write_at(&self, t: &Stamp, s: &str) -> (r: Vec<Emit>)
        requires
            t.valid(),
        ensures
            emit_views(r@) == write_effects(self.console, self.fl.is_some(), stamp_text(rfc2822_of(*t)))
                + write_effects(self.console, self.fl.is_some(), s@),
            ends_with(stamp_text(rfc2822_of(*t)), year_and_time(*t)),
    {
        let line = timestamp_line(t);
        self.ts_write_actions(line.as_str(), s)
    }
}

/// The text that a list of emissions sends to the file, in order.
pub open spec fn file_text(e: Seq<(Sink, Seq<char>)>) -> Seq<char>
    decreases e.len(),
{
    if e.len() == 0 {
        Seq::empty()
    } else {
        let last = e.last();
        file_text(e.drop_last()) + if last.0 == Sink::File { last.1 } else { Seq::empty() }
    }
}

/// Attaching a handle and then closing the logger leaves no file attached and
/// keeps the console setting; the handle was held in between.
pub proof fn open_then_close<F>(l: Logger<F>, f: F)
    ensures
        attached(l, Some(f)).fl == Some(f),
        closed(attached(l, Some(f))).fl.is_none(),
        closed(attached(l, Some(f))).console == l.console,
{
}

/// Writing `text` to a logger with a file attached sends exactly `text` to the
/// file, whether or not console output is on; with console output off, the
/// file is the only sink.
pub proof fn written_text_reaches_file(console: bool, text: Seq<char>)
    ensures
        file_text(write_effects(console, true, text)) == text,
        !console ==> write_effects(console, true, text) == seq![(Sink::File, text)],
{
    let e = write_effects(console, true, text);
    assert(e.drop_last() =~= write_effects(console, false, text));
    reveal_with_fuel(file_text, 3);
    assert(file_text(e) =~= text);
    if !console {
        assert(e =~= seq![(Sink::File, text)]);
    }
}

/// A timestamped write to a logger with a file attached sends the timestamp
/// line and then the text to the file, and nothing else.
pub proof fn timestamped_text_reaches_file(console: bool, stamp: Seq<char>, text: Seq<char>)
    ensures
        file_text(write_effects(console, true, stamp) + write_effects(console, true, text))
            == stamp + text,
{
    let a = write_effects(console, true, stamp);
    let b = write_effects(console, true, text);
    let e = a + b;
    written_text_reaches_file(console, stamp);
    reveal_with_fuel(file_text, 3);
    assert(e.drop_last() =~= a + write_effects(console, false, text));
    if console {
        assert(e.drop_last().drop_last() =~= a);
        assert(file_text(e.drop_last()) =~= file_text(a));
    } else {
        assert(e.drop_last() =~= a);
    }
    assert(file_text(e) =~= stamp + text);

}

/// `s` ends with `suffix`.
pub open spec fn ends_with(s: Seq<char>, suffix: Seq<char>) -> bool {
    suffix.len() <= s.len() && s.subrange(s.len() - suffix.len(), s.len() as int) == suffix
}

fn push_write(v: &mut Vec<Emit>, console: bool, has_file: bool, s: &str)
    ensures
        emit_views(final(v)@) == emit_views(old(v)@) + write_effects(console, has_file, s@),
{
    let ghost start = v@;
    if console {
        v.push(Emit { sink: Sink::Console, text: String::from_str(s) });
    }
    if has_file {
        v.push(Emit { sink: Sink::File, text: String::from_str(s) });
    }
    assert(emit_views(v@) =~= emit_views(start) + write_effects(console, has_file, s@));
}

} // verus!
