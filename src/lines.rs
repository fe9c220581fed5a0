use vstd::prelude::*;
use vstd::string::StringExecFns;
use crate::cli::Config;

verus! {

/// The decimal digit `d` (for `d < 10`).
pub open spec fn digit_char(d: nat) -> char {
    seq!['0', '1', '2', '3', '4', '5', '6', '7', '8', '9'][d as int]
}

/// The decimal spelling of `n`, without sign or leading zeros.
pub open spec fn decimal(n: nat) -> Seq<char>
    decreases n,
{
    if n < 10 {
        seq![digit_char(n)]
    } else {
        decimal(n / 10).push(digit_char(n % 10))
    }
}

/// How many of the lines `s` hold at least one character.
pub open spec fn nonblank_count(s: Seq<Seq<char>>) -> nat
    decreases s.len(),
{
    if s.len() == 0 {
        0
    } else {
        nonblank_count(s.drop_last()) + if s.last().len() > 0 { 1nat } else { 0nat }
    }
}

/// `line` behind the number `n` and a tab.
pub open spec fn prefixed(n: nat, line: Seq<char>) -> Seq<char> {
    decimal(n) + seq!['\t'] + line
}

/// What is printed for `line` when `read` lines of the same source came
/// before it, `nonblank` of them not blank.
pub open spec fn render(
    number_all: bool,
    number_nonblank: bool,
    read: nat,
    nonblank: nat,
    line: Seq<char>,
) -> Seq<char> {
    if number_all {
        prefixed(read + 1, line)
    } else if number_nonblank && line.len() > 0 {
        prefixed(nonblank + 1, line)
    } else {
        line
    }
}

/// What is printed for `line`, when `prior` are the lines of the same source before it.
pub open spec fn output_line(
    number_all: bool,
    number_nonblank: bool,
    prior: Seq<Seq<char>>,
    line: Seq<char>,
) -> Seq<char> {
    render(number_all, number_nonblank, prior.len(), nonblank_count(prior), line)
}

/// What is printed for the lines of one source, line by line.
pub open spec fn numbered(number_all: bool, number_nonblank: bool, lines: Seq<Seq<char>>) -> Seq<
    Seq<char>,
> {
    Seq::new(lines.len(), |i: int| output_line(number_all, number_nonblank, lines.take(i), lines[i]))
}

pub open spec fn views(v: Seq<String>) -> Seq<Seq<char>> {
    v.map_values(|s: String| s@)
}

fn digit_str(d: usize) -> (r: &'static str)
    requires
        d < 10,
    ensures
        r@ == seq![digit_char(d as nat)],
{
    proof {
        reveal_strlit("0");
        reveal_strlit("1");
        reveal_strlit("2");
        reveal_strlit("3");
        reveal_strlit("4");
        reveal_strlit("5");
        reveal_strlit("6");
        reveal_strlit("7");
        reveal_strlit("8");
        reveal_strlit("9");
    }
    match d {
        0 => "0",
        1 => "1",
        2 => "2",
        3 => "3",
        4 => "4",
        5 => "5",
        6 => "6",
        7 => "7",
        8 => "8",
        _ => "9",
    }
}

/// Spells `n` in decimal.
pub fn decimal_string(n: usize) -> (r: String)
    ensures
        r@ == decimal(n as nat),
    decreases n,
{
    if n < 10 {
        String::from_str(digit_str(n))
    } else {
        let mut s = decimal_string(n / 10);
        s.append(digit_str(n % 10));
        s
    }
}

/// `line` behind the number `n` and a tab.
pub fn prefix_line(n: usize, line: &str) -> (r: String)
    ensures
        r@ == prefixed(n as nat, line@),
{
    let mut s = decimal_string(n);
    proof {
        reveal_strlit("\t");
    }
    s.append("\t");
    s.append(line);
    s
}

/// The numbering state within one source: how many lines were read, and how
/// many of them were not blank.
pub struct LineCounter {
    read: usize,
    nonblank: usize,
}

impl LineCounter {
    pub closed spec fn lines_read(&self) -> nat {
        self.read as nat
    }

    pub closed spec fn nonblank_read(&self) -> nat {
        self.nonblank as nat
    }

    /// At most as many lines are not blank as were read.
    pub closed spec fn wf(&self) -> bool {
        self.nonblank <= self.read
    }

    /// The state holds the counts of the lines `prior`.
    pub open spec fn counts(&self, prior: Seq<Seq<char>>) -> bool {
        &&& self.wf()
        &&& self.lines_read() == prior.len()
        &&& self.nonblank_read() == nonblank_count(prior)
    }

    /// A counter at the start of a source.
    pub fn new() -> (r: LineCounter)
        ensures
            r.counts(seq![]),
    {
        LineCounter { read: 0, nonblank: 0 }
    }

    /// Whether one more line can be counted.
    pub fn has_room(&self) -> (r: bool)
        ensures
            r == (self.lines_read() < usize::MAX),
    {
        self.read < usize::MAX
    }

    /// Counts `line` and returns what is printed for it.
    pub fn feed(&mut self, config: &Config, line: &String) -> (r: String)
        requires
            old(self).wf(),
            old(self).lines_read() < usize::MAX,
        ensures
            final(self).wf(),
            final(self).lines_read() == old(self).lines_read() + 1,
            final(self).nonblank_read() == old(self).nonblank_read() + if line@.len() > 0 {
                1nat
            } else {
                0nat
            },
            r@ == render(
                config@.count_lines,
                config@.nonblank_number,
                old(self).lines_read(),
                old(self).nonblank_read(),
                line@,
            ),
            forall|prior: Seq<Seq<char>>|
                #![trigger old(self).counts(prior)]
                old(self).counts(prior) ==> final(self).counts(prior.push(line@)) && r@
                    == output_line(config@.count_lines, config@.nonblank_number, prior, line@),
    {
        proof {
            assert forall|prior: Seq<Seq<char>>| old(self).counts(prior) implies nonblank_count(
                prior.push(line@),
            ) == nonblank_count(prior) + if line@.len() > 0 { 1nat } else { 0nat } by {
                assert(prior.push(line@).drop_last() =~= prior);
            }
        }
        let blank = line.as_str().is_empty();
        if !blank {
            self.nonblank = self.nonblank + 1;
        }
        self.read = self.read + 1;
        if config.count_lines() {
            prefix_line(self.read, line.as_str())
        } else if config.nonblank_number() && !blank {
            prefix_line(self.nonblank, line.as_str())
        } else {
            line.clone()
        }
    }

    /// Counts a line that could not be decoded, which is not printed: it
    /// takes a line number, and as it holds bytes it counts as non-blank.
    pub fn skip(&mut self)
        requires
            old(self).wf(),
            old(self).lines_read() < usize::MAX,
        ensures
            final(self).wf(),
            final(self).lines_read() == old(self).lines_read() + 1,
            final(self).nonblank_read() == old(self).nonblank_read() + 1,
    {
        self.read = self.read + 1;
        self.nonblank = self.nonblank + 1;
    }
}

/// What is printed for the lines `lines` of one source.
pub fn number_lines(config: &Config, lines: &Vec<String>) -> (r: Vec<String>)
    requires
        lines@.len() < usize::MAX,
    ensures
        r@.len() == lines@.len(),
        forall|i: int|
            0 <= i < lines@.len() ==> #[trigger] r@[i]@ == output_line(
                config@.count_lines,
                config@.nonblank_number,
                views(lines@).take(i),
                lines@[i]@,
            ),
        views(r@) == numbered(config@.count_lines, config@.nonblank_number, views(lines@)),
{
    let ghost ls = views(lines@);
    let mut counter = LineCounter::new();
    let mut out: Vec<String> = Vec::new();
    let mut i: usize = 0;
    while i < lines.len()
        invariant
            i <= lines@.len(),
            lines@.len() < usize::MAX,
            ls == views(lines@),
            counter.counts(ls.take(i as int)),
            views(out@) =~= numbered(config@.count_lines, config@.nonblank_number, ls.take(i as int)),
        decreases lines@.len() - i,
    {
        let ghost prior = ls.take(i as int);
        let ghost before = out@;
        let s = counter.feed(config, &lines[i]);
        out.push(s);
        proof {
            assert(views(out@) =~= views(before).push(s@));
            assert(ls.take(i + 1) =~= prior.push(ls[i as int]));
            let n = numbered(config@.count_lines, config@.nonblank_number, ls.take(i + 1));
            assert forall|k: int| 0 <= k < i + 1 implies views(out@)[k] == n[k] by {
                if k < i {
                    assert(ls.take(i + 1).take(k) =~= prior.take(k));
                } else {
                    assert(ls.take(i + 1).take(k) =~= prior);
                }
            }
        }
        i = i + 1;
    }
    assert(ls.take(lines@.len() as int) =~= ls);
    assert(views(out@).len() == out@.len());
    assert forall|k: int| 0 <= k < lines@.len() implies #[trigger] out@[k]@ == views(out@)[k] by {}
    out
}

/// The number that non-blank numbering gives the line at `i`: one more than
/// the non-blank lines before it.
pub open spec fn nonblank_label(lines: Seq<Seq<char>>, i: int) -> nat {
    nonblank_count(lines.take(i)) + 1
}

proof fn lemma_count_step(lines: Seq<Seq<char>>, i: int)
    requires
        0 <= i < lines.len(),
    ensures
        nonblank_count(lines.take(i + 1)) == nonblank_count(lines.take(i)) + if lines[i].len()
            > 0 {
            1nat
        } else {
            0nat
        },
{
    assert(lines.take(i + 1).drop_last() =~= lines.take(i));
}

proof fn lemma_count_blank_span(lines: Seq<Seq<char>>, i: int, j: int)
    requires
        0 <= i <= j <= lines.len(),
        forall|k: int| i <= k < j ==> #[trigger] lines[k].len() == 0,
    ensures
        nonblank_count(lines.take(j)) == nonblank_count(lines.take(i)),
    decreases j - i,
{
    if i < j {
        lemma_count_blank_span(lines, i, j - 1);
        lemma_count_step(lines, j - 1);
    }
}

/// With every line numbered, each input line gives one output line, and the
/// line at `i` is printed behind the number `i + 1`.
pub proof fn lemma_number_all(lines: Seq<Seq<char>>)
    ensures
        numbered(true, false, lines).len() == lines.len(),
        forall|i: int|
            0 <= i < lines.len() ==> #[trigger] numbered(true, false, lines)[i] == prefixed(
                (i + 1) as nat,
                lines[i],
            ),
{
}

/// With the non-blank lines numbered, each input line gives one output line;
/// a blank line is printed as it is, a non-blank one behind its number; the
/// first non-blank line has the number 1, and each later one has one more
/// than the non-blank line before it, whatever blank lines stand between them.
pub proof fn lemma_number_nonblank(lines: Seq<Seq<char>>)
    ensures
        numbered(false, true, lines).len() == lines.len(),
        forall|i: int|
            0 <= i < lines.len() && lines[i].len() == 0 ==> #[trigger] numbered(
                false,
                true,
                lines,
            )[i] == lines[i],
        forall|i: int|
            0 <= i < lines.len() && lines[i].len() > 0 ==> #[trigger] numbered(
                false,
                true,
                lines,
            )[i] == prefixed(nonblank_label(lines, i), lines[i]),
        forall|i: int|
            0 <= i < lines.len() && lines[i].len() > 0 && (forall|k: int|
                0 <= k < i ==> #[trigger] lines[k].len() == 0) ==> #[trigger] nonblank_label(
                lines,
                i,
            ) == 1,
        forall|i: int, j: int|
            0 <= i < j < lines.len() && lines[i].len() > 0 && (forall|k: int|
                i < k < j ==> #[trigger] lines[k].len() == 0) ==> #[trigger] nonblank_label(
                lines,
                j,
            ) == #[trigger] nonblank_label(lines, i) + 1,
{
    assert forall|i: int|
        0 <= i < lines.len() && lines[i].len() > 0 && (forall|k: int|
            0 <= k < i ==> #[trigger] lines[k].len() == 0) implies #[trigger] nonblank_label(
        lines,
        i,
    ) == 1 by {
        lemma_count_blank_span(lines, 0, i);
        assert(lines.take(0) =~= Seq::<Seq<char>>::empty());
    }
    assert forall|i: int, j: int|
        0 <= i < j < lines.len() && lines[i].len() > 0 && (forall|k: int|
            i < k < j ==> #[trigger] lines[k].len() == 0) implies #[trigger] nonblank_label(
        lines,
        j,
    ) == #[trigger] nonblank_label(lines, i) + 1 by {
        lemma_count_blank_span(lines, i + 1, j);
        lemma_count_step(lines, i);
    }
}

/// With no numbering, the output is the input, line for line.
pub proof fn lemma_unnumbered_is_verbatim(lines: Seq<Seq<char>>)
    ensures
        numbered(false, false, lines) == lines,
{
    assert(numbered(false, false, lines) =~= lines);
}

/// A source without lines prints nothing, whatever the numbering.
pub proof fn lemma_empty_source(number_all: bool, number_nonblank: bool)
    ensures
        numbered(number_all, number_nonblank, Seq::empty()) == Seq::<Seq<char>>::empty(),
{
    assert(numbered(number_all, number_nonblank, Seq::empty()) =~= Seq::<Seq<char>>::empty());
}

} // verus!
