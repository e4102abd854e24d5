//! A text buffer that knows how far to indent.

use crate::text::{add_col, push_spaces, sat_add, spaces_text, text_width, width};
use vstd::prelude::*;

verus! {

/// A buffer of output with its indentation: the size of one step and the
/// indentation that the next indented line gets.
#[derive(Debug)]
pub struct IndentBuffer {
    pub buffer: String,
    pub indent_size: usize,
    pub current_indent: usize,
}

/// The first `n` texts, one after the other.
pub open spec fn concat_texts(args: Seq<&str>, n: int) -> Seq<char>
    decreases n,
{
    if n <= 0 || n > args.len() {
        Seq::empty()
    } else {
        concat_texts(args, n - 1) + args[n - 1]@
    }
}

/// The texts, one after the other.
pub open spec fn concat_all(args: Seq<&str>) -> Seq<char> {
    concat_texts(args, args.len() as int)
}

/// The widths of the first `n` texts added up, up to the largest machine
/// word.
pub open spec fn widths(args: Seq<&str>, n: int) -> usize
    decreases n,
{
    if n <= 0 || n > args.len() {
        0
    } else {
        sat_add(widths(args, n - 1), width(args[n - 1]@))
    }
}

/// The widths of the texts added up.
pub open spec fn widths_all(args: Seq<&str>) -> usize {
    widths(args, args.len() as int)
}

/// The indentation in front of an indented line: `current` spaces where
/// indentation is on.
pub open spec fn pad(indent_size: usize, current: usize) -> Seq<char> {
    if indent_size > 0 && current > 0 {
        spaces_text(current as nat)
    } else {
        Seq::empty()
    }
}

/// The width of the indentation in front of an indented line.
pub open spec fn pad_width(indent_size: usize, current: usize) -> usize {
    if indent_size > 0 && current > 0 {
        width(spaces_text(current as nat))
    } else {
        0
    }
}

/// The end of a line: a line feed where indentation is on, else nothing.
pub open spec fn line_end(indent_size: usize) -> Seq<char> {
    if indent_size > 0 {
        "\n"@
    } else {
        Seq::empty()
    }
}

/// The indentation one step down; it stays where it is below one step.
pub open spec fn dedented(current: usize, indent_size: usize) -> usize {
    if current >= indent_size {
        (current - indent_size) as usize
    } else {
        current
    }
}

impl IndentBuffer {
    /// An empty buffer that indents by `begin_indent` first.
    pub fn new(indent_size: usize, begin_indent: usize) -> (r: Self)
        ensures
            r.buffer@ == Seq::<char>::empty(),
            r.indent_size == indent_size,
            r.current_indent == begin_indent,
    {
        IndentBuffer { buffer: String::new(), indent_size, current_indent: begin_indent }
    }

    /// Appends the texts and returns their width.
    pub fn writes(&mut self, args: &[&str]) -> (len: usize)
        ensures
            final(self).buffer@ == old(self).buffer@ + concat_all(args@),
            final(self).indent_size == old(self).indent_size,
            final(self).current_indent == old(self).current_indent,
            len == widths_all(args@),
    {
        let mut len: usize = 0;
        let mut i: usize = 0;
        assert(self.buffer@ =~= old(self).buffer@ + concat_texts(args@, 0));
        while i < args.len()
            invariant
                i <= args.len(),
                self.buffer@ == old(self).buffer@ + concat_texts(args@, i as int),
                self.indent_size == old(self).indent_size,
                self.current_indent == old(self).current_indent,
                len == widths(args@, i as int),
            decreases args.len() - i,
        {
            let ghost prev = concat_texts(args@, i as int);
            let w = self.write(args[i]);
            len = add_col(len, w);
            i += 1;
            assert(self.buffer@ =~= old(self).buffer@ + (prev + args@[i - 1]@));
        }
        len
    }

    /// Appends the text and returns its width.
    pub fn write(&mut self, s: &str) -> (len: usize)
        ensures
            final(self).buffer@ == old(self).buffer@ + s@,
            final(self).indent_size == old(self).indent_size,
            final(self).current_indent == old(self).current_indent,
            len == width(s@),
    {
        self.buffer.append(s);
        text_width(s)
    }

    /// Appends the indentation and the texts, and returns the width of both.
    pub fn write_indent(&mut self, args: &[&str]) -> (len: usize)
        ensures
            final(self).buffer@ == old(self).buffer@ + pad(
                old(self).indent_size,
                old(self).current_indent,
            ) + concat_all(args@),
            final(self).indent_size == old(self).indent_size,
            final(self).current_indent == old(self).current_indent,
            len == sat_add(
                pad_width(old(self).indent_size, old(self).current_indent),
                widths_all(args@),
            ),
    {
        let mut len: usize = 0;
        if self.indent_size > 0 && self.current_indent > 0 {
            let mut indent_str = String::new();
            push_spaces(&mut indent_str, self.current_indent);
            assert(indent_str@ =~= spaces_text(self.current_indent as nat));
            len = add_col(len, self.write(indent_str.as_str()));
        } else {
            assert(self.buffer@ =~= old(self).buffer@ + Seq::<char>::empty());
        }
        let w = self.writes(args);
        add_col(len, w)
    }

    /// Appends the texts and ends the line; returns the width of both.
    pub fn writeln(&mut self, args: &[&str]) -> (len: usize)
        ensures
            final(self).buffer@ == old(self).buffer@ + concat_all(args@) + line_end(
                old(self).indent_size,
            ),
            final(self).indent_size == old(self).indent_size,
            final(self).current_indent == old(self).current_indent,
            len == if old(self).indent_size > 0 {
                sat_add(widths_all(args@), 1)
            } else {
                widths_all(args@)
            },
    {
        let len = self.writes(args);
        if self.indent_size > 0 {
            self.buffer.append("\n");
            add_col(len, 1)
        } else {
            assert(self.buffer@ =~= old(self).buffer@ + concat_all(args@) + Seq::<char>::empty());
            len
        }
    }

    /// Appends the indentation and the texts and ends the line; returns the
    /// width of all three.
    pub fn writeln_indent(&mut self, args: &[&str]) -> (len: usize)
        ensures
            final(self).buffer@ == old(self).buffer@ + pad(
                old(self).indent_size,
                old(self).current_indent,
            ) + concat_all(args@) + line_end(old(self).indent_size),
            final(self).indent_size == old(self).indent_size,
            final(self).current_indent == old(self).current_indent,
            len == if old(self).indent_size > 0 {
                sat_add(
                    sat_add(
                        pad_width(old(self).indent_size, old(self).current_indent),
                        widths_all(args@),
                    ),
                    1,
                )
            } else {
                sat_add(
                    pad_width(old(self).indent_size, old(self).current_indent),
                    widths_all(args@),
                )
            },
    {
        let len = self.write_indent(args);
        if self.indent_size > 0 {
            self.buffer.append("\n");
            add_col(len, 1)
        } else {
            assert(self.buffer@ =~= old(self).buffer@ + pad(
                old(self).indent_size,
                old(self).current_indent,
            ) + concat_all(args@) + Seq::<char>::empty());
            len
        }
    }

    /// Indents one step more and returns the new indentation, which stops at
    /// the largest machine word.
    pub fn indent(&mut self) -> (r: usize)
        ensures
            final(self).current_indent == sat_add(
                old(self).current_indent,
                old(self).indent_size,
            ),
            final(self).indent_size == old(self).indent_size,
            final(self).buffer == old(self).buffer,
            r == final(self).current_indent,
    {
        self.current_indent = add_col(self.current_indent, self.indent_size);
        self.current_indent
    }

    /// Indents one step less, where there is a step to take back, and returns
    /// the new indentation.
    pub fn dedent(&mut self) -> (r: usize)
        ensures
            final(self).current_indent == dedented(old(self).current_indent, old(self).indent_size),
            final(self).indent_size == old(self).indent_size,
            final(self).buffer == old(self).buffer,
            r == final(self).current_indent,
    {
        if self.current_indent >= self.indent_size {
            self.current_indent -= self.indent_size;
        }
        self.current_indent
    }

    /// What has been written.
    pub fn get_value(&self) -> (r: &str)
        ensures
            r@ == self.buffer@,
    {
        self.buffer.as_str()
    }

    /// Forgets what has been written; the indentation stays.
    pub fn clear(&mut self)
        ensures
            final(self).buffer@ == Seq::<char>::empty(),
            final(self).indent_size == old(self).indent_size,
            final(self).current_indent == old(self).current_indent,
    {
        self.buffer = String::new();
    }
}

} // verus!
