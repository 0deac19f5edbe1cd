use vstd::prelude::*;
use vstd::string::*;

verus! {

/// `n` spaces.
pub open spec fn spaces(n: nat) -> Seq<char> {
    Seq::new(n, |i: int| ' ')
}

/// `s` and a line break.
pub open spec fn line(s: Seq<char>) -> Seq<char> {
    s + seq!['\n']
}

/// `s` after `width` spaces.
pub open spec fn indented(width: nat, s: Seq<char>) -> Seq<char> {
    spaces(width) + s
}

/// `s` after `width` spaces, and a line break.
pub open spec fn indented_line(width: nat, s: Seq<char>) -> Seq<char> {
    spaces(width) + s + seq!['\n']
}

/// A text buffer that the generators fill line by line, indenting by
/// a fixed number of spaces per level.
pub struct Writer {
    tab_size: usize,
    buffer: String,
}

impl View for Writer {
    type V = Seq<char>;

    closed spec fn view(&self) -> Seq<char> {
        self.buffer@
    }
}

impl Writer {
    /// Number of spaces per indentation level.
    pub closed spec fn tab(&self) -> nat {
        self.tab_size as nat
    }

    /// An empty writer that indents by `tab_size` spaces per level.
    pub fn new(tab_size: usize) -> (w: Writer)
        ensures
            w@ == Seq::<char>::empty(),
            w.tab() == tab_size,
    {
        Writer { tab_size, buffer: String::new() }
    }

    /// Appends `s`.
    pub fn write(&mut self, s: &str)
        ensures
            final(self)@ == old(self)@ + s@,
            final(self).tab() == old(self).tab(),
    {
        self.buffer.append(s);
    }

    /// Appends `s` and a line break.
    pub fn writeln(&mut self, s: &str)
        ensures
            final(self)@ == old(self)@ + line(s@),
            final(self).tab() == old(self).tab(),
    {
        self.buffer.append(s);
        proof {
            reveal_strlit("\n");
        }
        self.buffer.append("\n");
    }

    fn write_indent(&mut self, level: usize)
        requires
            (level as nat) * old(self).tab() <= usize::MAX,
        ensures
            final(self)@ == old(self)@ + spaces((level as nat) * old(self).tab()),
            final(self).tab() == old(self).tab(),
    {
        let n = level * self.tab_size;
        let mut i: usize = 0;
        while i < n
            invariant
                i <= n,
                n == (level as nat) * old(self).tab(),
                self.tab() == old(self).tab(),
                self@ == old(self)@ + spaces(i as nat),
            decreases n - i,
        {
            proof {
                reveal_strlit(" ");
            }
            self.buffer.append(" ");
            i += 1;
            assert(spaces(i as nat) =~= spaces((i - 1) as nat) + seq![' ']);
        }
    }

    /// Appends `level` indentation levels, then `s`.
    pub fn write_tab(&mut self, level: usize, s: &str)
        requires
            (level as nat) * old(self).tab() <= usize::MAX,
        ensures
            final(self)@ == old(self)@ + indented((level as nat) * old(self).tab(), s@),
            final(self).tab() == old(self).tab(),
    {
        self.write_indent(level);
        self.write(s);
        assert(self@ =~= old(self)@ + indented((level as nat) * old(self).tab(), s@));
    }

    /// Appends `level` indentation levels, `s` and a line break.
    pub fn writeln_tab(&mut self, level: usize, s: &str)
        requires
            (level as nat) * old(self).tab() <= usize::MAX,
        ensures
            final(self)@ == old(self)@ + indented_line((level as nat) * old(self).tab(), s@),
            final(self).tab() == old(self).tab(),
    {
        self.write_indent(level);
        self.writeln(s);
        assert(self@ =~= old(self)@ + indented_line((level as nat) * old(self).tab(), s@));
    }

    /// The text written so far.
    pub fn show(&self) -> (s: &str)
        ensures
            s@ == self@,
    {
        self.buffer.as_str()
    }
}

} // verus!
