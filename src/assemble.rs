//! Assembly of one command from raw input lines joined by a trailing
//! continuation marker.
use vstd::prelude::*;
use vstd::string::*;

verus! {

/// What `str::trim` leaves of a line.
pub uninterp spec fn trimmed_of(s: Seq<char>) -> Seq<char>;

/// Relies on str::trim: leading and trailing whitespace removed; the result
/// depends on the characters alone.
#[verifier::external_body]
fn trim_line<'a>(line: &'a str) -> (r: &'a str)
    ensures
        r@ == trimmed_of(line@),
{
    line.trim()
}

/// A trimmed line that ends with the continuation marker `\`.
pub open spec fn has_marker(t: Seq<char>) -> bool {
    t.len() > 0 && t.last() == '\\'
}

/// What a trimmed line adds to the command: the marker becomes a newline.
pub open spec fn piece(t: Seq<char>) -> Seq<char> {
    if has_marker(t) {
        t.drop_last().push('\n')
    } else {
        t
    }
}

/// The command assembled from raw lines, in the order they were read.
pub open spec fn assembled(lines: Seq<Seq<char>>) -> Seq<char>
    decreases lines.len(),
{
    if lines.len() == 0 {
        Seq::empty()
    } else {
        assembled(lines.drop_last()) + piece(trimmed_of(lines.last()))
    }
}

/// Accumulates raw lines into one command string.
pub struct LineAssembler {
    text: String,
    lines: Ghost<Seq<Seq<char>>>,
}

impl LineAssembler {
    /// The raw lines taken so far.
    pub closed spec fn lines(&self) -> Seq<Seq<char>> {
        self.lines@
    }

    /// The command text assembled so far.
    pub closed spec fn text(&self) -> Seq<char> {
        self.text@
    }

    pub fn new() -> (r: Self)
        ensures
            r.lines() == Seq::<Seq<char>>::empty(),
            r.text() == assembled(r.lines()),
    {
        LineAssembler { text: String::new(), lines: Ghost(Seq::empty()) }
    }

    /// Takes one raw line; returns whether the command is complete, that is
    /// whether the trimmed line does not end with the marker.
    pub fn push_line(&mut self, line: &str) -> (done: bool)
        requires
            old(self).text() == assembled(old(self).lines()),
        ensures
            final(self).lines() == old(self).lines().push(line@),
            final(self).text() == assembled(final(self).lines()),
            final(self).text() == old(self).text() + piece(trimmed_of(line@)),
            done == !has_marker(trimmed_of(line@)),
    {
        let t = trim_line(line);
        let n = t.unicode_len();
        let marked = n > 0 && t.get_char(n - 1) == '\\';
        let ghost prev = self.lines@;
        if marked {
            let head = t.substring_char(0, n - 1);
            self.text.append(head);
            self.text.append("\n");
            proof {
                reveal_strlit("\n");
                assert(t@.drop_last() =~= head@);
            }
        } else {
            self.text.append(t);
        }
        self.lines = Ghost(prev.push(line@));
        proof {
            assert(self.lines@.drop_last() =~= prev);
            assert(self.text@ =~= assembled(prev) + piece(trimmed_of(line@)));
        }
        !marked
    }

    /// The assembled command.
    pub fn into_command(self) -> (r: String)
        ensures
            r@ == self.text(),
    {
        self.text
    }
}

/// Two raw lines, the first ending with the marker once trimmed and the
/// second not, assemble into the first without its marker, a newline, and the
/// second.
pub proof fn law_continued_lines(first: Seq<char>, second: Seq<char>)
    requires
        has_marker(trimmed_of(first)),
        !has_marker(trimmed_of(second)),
    ensures
        assembled(seq![first, second]) == trimmed_of(first).drop_last() + seq!['\n']
            + trimmed_of(second),
{
    let lines = seq![first, second];
    assert(lines.drop_last() =~= seq![first]);
    assert(seq![first].drop_last() =~= Seq::<Seq<char>>::empty());
    assert(seq![first].last() == first);
    assert(lines.last() == second);
    assert(assembled(Seq::<Seq<char>>::empty()) == Seq::<char>::empty());
    assert(assembled(seq![first]) =~= Seq::<char>::empty() + piece(trimmed_of(first)));
    assert(trimmed_of(first).drop_last().push('\n') =~= trimmed_of(first).drop_last() + seq!['\n']);
    assert(assembled(seq![first]) =~= trimmed_of(first).drop_last() + seq!['\n']);
}

} // verus!
