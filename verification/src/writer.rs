//! A CSS text writer that keeps track of lines, columns and indentation.
use vstd::prelude::*;
use vstd::utf8::encode_utf8;
use crate::text::push_str;

verus! {

#[allow(unused)]
pub enum LineFeed {
    LF,
    CRLF,
}

#[allow(unused)]
pub enum IndentType {
    Space,
    Tab,
}

pub struct WriterConfig {
    pub linefeed: LineFeed,
    pub indent_width: usize,
    pub indent_type: IndentType,
    pub minify: bool,
}

impl WriterConfig {
    /// The default configuration: `\n`, two spaces, not minified.
    pub fn default() -> (r: WriterConfig)
        ensures
            r.linefeed is LF,
            r.indent_width == 2,
            r.indent_type is Space,
            !r.minify,
    {
        WriterConfig { linefeed: LineFeed::LF, indent_width: 2, indent_type: IndentType::Space, minify: false }
    }
}

/// The abstract state of a [`Writer`].
pub struct WriterState {
    pub dest: Seq<char>,
    pub minify: bool,
    pub line: usize,
    pub col: usize,
    pub linefeed: Seq<char>,
    pub indent: Seq<char>,
    pub indent_width: usize,
    pub indent_level: usize,
}

pub struct Writer {
    pub dest: String,
    pub minify: bool,
    pub line: usize,
    pub col: usize,
    pub linefeed: &'static str,
    pub indent: &'static str,
    pub indent_width: usize,
    pub indent_level: usize,
}

impl View for Writer {
    type V = WriterState;

    open spec fn view(&self) -> WriterState {
        WriterState {
            dest: self.dest@,
            minify: self.minify,
            line: self.line,
            col: self.col,
            linefeed: self.linefeed@,
            indent: self.indent@,
            indent_width: self.indent_width,
            indent_level: self.indent_level,
        }
    }
}

/// `s` repeated `n` times.
pub open spec fn repeat(s: Seq<char>, n: nat) -> Seq<char>
    decreases n,
{
    if n == 0 {
        Seq::empty()
    } else {
        repeat(s, (n - 1) as nat) + s
    }
}

/// The number of bytes in the UTF-8 encoding of `s`, as `str::len` gives it.
pub open spec fn byte_len(s: Seq<char>) -> usize {
    encode_utf8(s).len() as usize
}

/// Whether writing the indentation of the current level is free of
/// overflow; a minifying writer writes none.
pub open spec fn indent_fits(w: WriterState) -> bool {
    !w.minify ==> w.indent_level * w.indent_width <= usize::MAX
}

/// Indentation is written when a line is about to receive its first text.
pub open spec fn spec_ensure_indent(w: WriterState) -> WriterState {
    if !w.minify && w.col == 0 && w.indent_level > 0 {
        WriterState { dest: w.dest + repeat(w.indent, (w.indent_level * w.indent_width) as nat), ..w }
    } else {
        w
    }
}

pub open spec fn spec_write_str(w: WriterState, s: Seq<char>) -> WriterState {
    let w1 = spec_ensure_indent(w);
    WriterState { dest: w1.dest + s, col: w1.col.wrapping_add(byte_len(s)), ..w1 }
}

pub open spec fn spec_write_char(w: WriterState, c: char) -> WriterState {
    let w1 = spec_ensure_indent(w);
    WriterState { dest: w1.dest.push(c), col: w1.col.wrapping_add(1), ..w1 }
}

pub open spec fn spec_whitespace(w: WriterState) -> WriterState {
    if w.minify {
        w
    } else {
        let w1 = spec_write_str(w, w.indent);
        WriterState { col: w1.col.wrapping_add(1), ..w1 }
    }
}

pub open spec fn spec_newline(w: WriterState) -> WriterState {
    if w.minify {
        w
    } else {
        let w1 = spec_write_str(w, w.linefeed);
        WriterState { line: w1.line.wrapping_add(1), col: 0, ..w1 }
    }
}

impl Writer {
    /// A writer with the default configuration.
    pub fn default(dest: String) -> (r: Writer)
        ensures
            r@.dest == dest@,
            !r.minify,
            r@.linefeed == seq!['\n'],
            r@.indent == seq![' '],
            r.indent_width == 2,
            r.indent_level == 0,
            r.line == 0,
            r.col == 0,
    {
        Self::new(
            dest,
            WriterConfig { minify: false, linefeed: LineFeed::LF, indent_width: 2, indent_type: IndentType::Space },
        )
    }

    /// A minifying writer: no whitespace, no newlines, no indentation.
    pub fn minify(dest: String) -> (r: Writer)
        ensures
            r@.dest == dest@,
            r.minify,
            r@.linefeed == seq!['\n'],
            r@.indent == seq![' '],
            r.indent_width == 2,
            r.indent_level == 0,
            r.line == 0,
            r.col == 0,
    {
        let d = WriterConfig::default();
        Self::new(dest, WriterConfig { minify: true, ..d })
    }

    pub fn new(dest: String, config: WriterConfig) -> (r: Writer)
        ensures
            r@.dest == dest@,
            r.minify == config.minify,
            r@.indent == (match config.indent_type { IndentType::Tab => seq!['\t'], IndentType::Space => seq![' '] }),
            r@.linefeed == (match config.linefeed { LineFeed::LF => seq!['\n'], LineFeed::CRLF => seq!['\r', '\n'] }),
            r.indent_width == config.indent_width,
            r.indent_level == 0,
            r.line == 0,
            r.col == 0,
    {
        let indent = match config.indent_type {
            IndentType::Tab => "\t",
            IndentType::Space => " ",
        };
        let linefeed = match config.linefeed {
            LineFeed::LF => "\n",
            LineFeed::CRLF => "\r\n",
        };
        proof {
            reveal_strlit("\t");
            reveal_strlit(" ");
            reveal_strlit("\n");
            reveal_strlit("\r\n");
        }
        Writer {
            dest,
            minify: config.minify,
            line: 0,
            col: 0,
            linefeed,
            indent_width: config.indent_width,
            indent,
            indent_level: 0,
        }
    }

    fn ensure_ident(&mut self)
        requires
            indent_fits(old(self)@),
        ensures
            final(self)@ == spec_ensure_indent(old(self)@),
    {
        if self.minify {
            return;
        }
        if self.col == 0 && self.indent_level > 0 {
            let n = self.indent_level * self.indent_width;
            let ghost start = self.dest@;
            let mut i: usize = 0;
            while i < n
                invariant
                    i <= n,
                    n == old(self).indent_level * old(self).indent_width,
                    self@ == (WriterState { dest: start + repeat(self.indent@, i as nat), ..old(self)@ }),
                    start == old(self)@.dest,
                decreases n - i,
            {
                push_str(&mut self.dest, self.indent);
                i = i + 1;
                assert(start + repeat(self.indent@, i as nat) =~= start + repeat(self.indent@, (i - 1) as nat) + self.indent@);
            }
        }
    }

    pub fn write_str(&mut self, s: &str)
        requires
            indent_fits(old(self)@),
        ensures
            final(self)@ == spec_write_str(old(self)@, s@),
    {
        self.ensure_ident();
        self.col = self.col.wrapping_add(s.len());
        push_str(&mut self.dest, s);
    }

    pub fn write_char(&mut self, c: char)
        requires
            indent_fits(old(self)@),
        ensures
            final(self)@ == spec_write_char(old(self)@, c),
    {
        self.ensure_ident();
        self.col = self.col.wrapping_add(1);
        crate::text::push_char(&mut self.dest, c);
    }

    pub fn whitespace(&mut self)
        requires
            indent_fits(old(self)@),
        ensures
            final(self)@ == spec_whitespace(old(self)@),
    {
        if self.minify {
            return;
        }
        let indent = self.indent;
        self.write_str(indent);
        self.col = self.col.wrapping_add(1);
    }

    pub fn newline(&mut self)
        requires
            indent_fits(old(self)@),
        ensures
            final(self)@ == spec_newline(old(self)@),
    {
        if self.minify {
            return;
        }
        let linefeed = self.linefeed;
        self.write_str(linefeed);
        self.line = self.line.wrapping_add(1);
        self.col = 0;
    }

    pub fn indent(&mut self)
        requires
            old(self).indent_level < usize::MAX,
        ensures
            final(self)@ == (WriterState { indent_level: (old(self).indent_level + 1) as usize, ..old(self)@ }),
    {
        self.indent_level = self.indent_level + 1;
    }

    pub fn dedent(&mut self)
        requires
            old(self).indent_level > 0,
        ensures
            final(self)@ == (WriterState { indent_level: (old(self).indent_level - 1) as usize, ..old(self)@ }),
    {
        self.indent_level = self.indent_level - 1;
    }
}

} // verus!
