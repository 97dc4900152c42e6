//! Helper structure for building indented code.

use vstd::prelude::*;

verus! {

/// Four spaces for each level of indentation.
pub open spec fn indent_text(indent: nat) -> Seq<char> {
    Seq::new(4 * indent, |i: int| ' ')
}

/// Characters of a line at the given indentation, ended by a new line.
pub open spec fn line(indent: nat, text: Seq<char>) -> Seq<char> {
    indent_text(indent) + text + seq!['\n']
}

/// `text` without its last `n` characters; empty when it is not longer than that.
pub open spec fn drop_end(text: Seq<char>, n: nat) -> Seq<char> {
    text.take(if n <= text.len() { text.len() - n } else { 0 })
}

/// Removing as many characters as were pushed gives back the text from before the push.
pub proof fn lemma_pop_undoes_push(content: Seq<char>, text: Seq<char>)
    ensures
        drop_end(content + text, text.len()) == content,
{
    assert((content + text).take(content.len() as int) =~= content);
}

/// Helper structure for building indented code. Keeps string contents and current indent value.
pub struct Buffer {
    indent: u32,
    content: String,
}

impl Buffer {
    /// Current level of indentation.
    pub closed spec fn spec_indent(&self) -> u32 {
        self.indent
    }

    /// Text built so far.
    pub closed spec fn spec_content(&self) -> Seq<char> {
        self.content@
    }

    /// Creates new `Buffer`.
    pub fn new(indent: u32) -> (result: Self)
        ensures
            result.spec_indent() == indent,
            result.spec_content() == Seq::<char>::empty(),
    {
        Buffer { indent: indent, content: String::new() }
    }

    /// Returns content string.
    pub fn get_content(&self) -> (result: &String)
        ensures
            result@ == self.spec_content(),
    {
        &self.content
    }

    /// Pushes string into contents; returns the buffer for chaining.
    pub fn push(&mut self, content: &str) -> (result: &mut Buffer)
        ensures
            result.spec_indent() == old(self).spec_indent(),
            result.spec_content() == old(self).spec_content() + content@,
            *final(self) == *final(result),
    {
        self.content.append(content);
        self
    }

    /// Pushes string into contents with correct indent and adds new line.
    pub fn push_line(&mut self, line_text: &str) -> (result: &mut Buffer)
        ensures
            result.spec_indent() == old(self).spec_indent(),
            result.spec_content() == old(self).spec_content() + line(
                old(self).spec_indent() as nat,
                line_text@,
            ),
            *final(self) == *final(result),
    {
        self.push_indent();
        self.content.append(line_text);
        crate::text::string_push(&mut self.content, '\n');
        assert(self.content@ =~= old(self).content@ + line(self.indent as nat, line_text@));
        self
    }

    /// Pushes new line into contents;
    pub fn push_end_of_line(&mut self) -> (result: &mut Buffer)
        ensures
            result.spec_indent() == old(self).spec_indent(),
            result.spec_content() == old(self).spec_content() + seq!['\n'],
            *final(self) == *final(result),
    {
        crate::text::string_push(&mut self.content, '\n');
        self
    }

    /// Pushes current indent.
    pub fn push_indent(&mut self) -> (result: &mut Buffer)
        ensures
            result.spec_indent() == old(self).spec_indent(),
            result.spec_content() == old(self).spec_content() + indent_text(
                old(self).spec_indent() as nat,
            ),
            *final(self) == *final(result),
    {
        let mut i: u32 = 0;
        while i < self.indent
            invariant
                i <= self.indent,
                self.indent == old(self).indent,
                self.content@ == old(self).content@ + indent_text(i as nat),
            decreases self.indent - i,
        {
            self.content.append("    ");
            proof {
                reveal_strlit("    ");
                assert(self.content@ =~= old(self).content@ + indent_text((i + 1) as nat));
            }
            i = i + 1;
        }
        self
    }

    /// Increases level in indentation.
    pub fn increase_indent(&mut self) -> (result: &mut Buffer)
        requires
            old(self).spec_indent() < u32::MAX,
        ensures
            result.spec_indent() == old(self).spec_indent() + 1,
            result.spec_content() == old(self).spec_content(),
            *final(self) == *final(result),
    {
        self.indent = self.indent + 1;
        self
    }

    /// Decreases level in indentation.
    pub fn decrease_indent(&mut self) -> (result: &mut Buffer)
        requires
            old(self).spec_indent() > 0,
        ensures
            result.spec_indent() == old(self).spec_indent() - 1,
            result.spec_content() == old(self).spec_content(),
            *final(self) == *final(result),
    {
        self.indent = self.indent - 1;
        self
    }

    /// Remove `n` characters from the end.
    pub fn pop(&mut self, n: u32) -> (result: &mut Buffer)
        ensures
            result.spec_indent() == old(self).spec_indent(),
            result.spec_content() == drop_end(old(self).spec_content(), n as nat),
            *final(self) == *final(result),
    {
        let mut i: u32 = 0;
        while i < n
            invariant
                i <= n,
                self.indent == old(self).indent,
                self.content@ == old(self).content@.take(
                    if i <= old(self).content@.len() {
                        old(self).content@.len() - i
                    } else {
                        0
                    },
                ),
            decreases n - i,
        {
            crate::text::string_pop(&mut self.content);
            i = i + 1;
            assert(self.content@ =~= old(self).content@.take(
                if i <= old(self).content@.len() {
                    old(self).content@.len() - i
                } else {
                    0
                },
            ));
        }
        self
    }
}

} // verus!
