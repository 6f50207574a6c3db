//! Quoting of command-line arguments, so that the program that is
//! launched finds in its argument list what was put in.
//!
//! The command line of a service is split by the usual rules: an argument
//! ends at white space outside double quotes, a double quote is taken
//! literally when an odd number of backslashes stands before it, and
//! backslashes mean themselves unless a double quote follows them. The
//! functions here work on UTF-16 code units.

use vstd::prelude::*;
use vstd::slice::slice_to_vec;

verus! {

/// The double quote.
pub const QUOTE: u16 = 0x22;

/// The backslash.
pub const BACKSLASH: u16 = 0x5C;

/// The space.
pub const SPACE: u16 = 0x20;

/// The horizontal tab.
pub const TAB: u16 = 0x09;

/// The line feed.
pub const NEWLINE: u16 = 0x0A;

/// The units that cannot stand in an argument without quotes round it.
pub open spec fn is_special(unit: u16) -> bool {
    unit == SPACE || unit == TAB || unit == NEWLINE || unit == QUOTE
}

/// An argument is quoted where it is empty or holds a special unit.
pub open spec fn needs_quotes(arg: Seq<u16>) -> bool {
    arg.len() == 0 || exists|i: int| 0 <= i < arg.len() && is_special(#[trigger] arg[i])
}

/// The number of backslashes that stand in a row from position `i` on.
pub open spec fn backslash_run(arg: Seq<u16>, i: int) -> nat
    decreases arg.len() - i,
{
    if 0 <= i < arg.len() && arg[i] == BACKSLASH {
        1 + backslash_run(arg, i + 1)
    } else {
        0
    }
}

/// The backslashes from position `i` on lead up to a double quote or to
/// the end of the argument, where the closing quote will stand.
pub open spec fn run_precedes_quote(arg: Seq<u16>, i: int) -> bool {
    let end = i + backslash_run(arg, i);
    end == arg.len() || arg[end] == QUOTE
}

/// What stands for the unit at position `i` between the quotes: a double
/// quote gets a backslash in front, a backslash is doubled where its run
/// leads up to a double quote, and any other unit stands for itself.
pub open spec fn escaped_unit(arg: Seq<u16>, i: int) -> Seq<u16> {
    if arg[i] == QUOTE {
        seq![BACKSLASH, QUOTE]
    } else if arg[i] == BACKSLASH && run_precedes_quote(arg, i) {
        seq![BACKSLASH, BACKSLASH]
    } else {
        seq![arg[i]]
    }
}

/// What stands for the first `n` units of the argument between the quotes.
pub open spec fn escaped_prefix(arg: Seq<u16>, n: int) -> Seq<u16>
    decreases n,
{
    if n <= 0 {
        Seq::empty()
    } else {
        escaped_prefix(arg, n - 1) + escaped_unit(arg, n - 1)
    }
}

/// The argument as it is written on a command line.
pub open spec fn quoted(arg: Seq<u16>) -> Seq<u16> {
    if needs_quotes(arg) {
        seq![QUOTE] + escaped_prefix(arg, arg.len() as int) + seq![QUOTE]
    } else {
        arg
    }
}

/// The command line that launches a program with arguments: each part
/// quoted, a space between them.
pub open spec fn command_line(program: Seq<u16>, args: Seq<Seq<u16>>) -> Seq<u16>
    decreases args.len(),
{
    if args.len() == 0 {
        quoted(program)
    } else {
        command_line(program, args.drop_last()) + seq![SPACE] + quoted(args.last())
    }
}

/// `n` backslashes.
pub open spec fn backslashes(n: nat) -> Seq<u16> {
    Seq::new(n, |i: int| BACKSLASH)
}

/// What the program that is launched reads as its argument from position
/// `i` of a command line on, inside or outside double quotes.
///
/// Backslashes in front of a double quote count in pairs: each pair gives
/// one backslash, and a backslash left over makes the double quote a part
/// of the argument. A double quote with no backslash left over opens or
/// closes a quoted stretch and is left out. Backslashes elsewhere mean
/// themselves. Outside double quotes, a space or a tab ends the argument.
pub open spec fn parsed_argument(line: Seq<u16>, i: int, in_quotes: bool) -> Seq<u16>
    decreases line.len() - i,
{
    if i < 0 || i >= line.len() {
        Seq::empty()
    } else {
        let run = backslash_run(line, i);
        let next = i + run;
        proof {
            lemma_run_facts(line, i);
        }
        if run > 0 {
            if next < line.len() && line[next] == QUOTE {
                if run % 2 == 0 {
                    backslashes(run / 2) + parsed_argument(line, next + 1, !in_quotes)
                } else {
                    backslashes(run / 2).push(QUOTE) + parsed_argument(line, next + 1, in_quotes)
                }
            } else {
                backslashes(run) + parsed_argument(line, next, in_quotes)
            }
        } else if line[i] == QUOTE {
            parsed_argument(line, i + 1, !in_quotes)
        } else if !in_quotes && (line[i] == SPACE || line[i] == TAB) {
            Seq::empty()
        } else {
            seq![line[i]] + parsed_argument(line, i + 1, in_quotes)
        }
    }
}

/// A row of backslashes from `i` up to `end`, where it stops, has length
/// `end - i`.
pub proof fn lemma_backslash_run(arg: Seq<u16>, i: int, end: int)
    requires
        0 <= i <= end <= arg.len(),
        forall|k: int| i <= k < end ==> arg[k] == BACKSLASH,
        end == arg.len() || arg[end] != BACKSLASH,
    ensures
        backslash_run(arg, i) == end - i,
    decreases end - i,
{
    if i < end {
        lemma_backslash_run(arg, i + 1, end);
    }
}

/// Quoting puts no nul into an argument that holds none.
pub proof fn lemma_escaped_prefix_nul_free(arg: Seq<u16>, n: int)
    requires
        0 <= n <= arg.len(),
        !arg.contains(0),
    ensures
        !escaped_prefix(arg, n).contains(0),
    decreases n,
{
    if n > 0 {
        lemma_escaped_prefix_nul_free(arg, n - 1);
        let head = escaped_prefix(arg, n - 1);
        let unit = escaped_unit(arg, n - 1);
        assert(arg.contains(arg[n - 1]));
        if (head + unit).contains(0) {
            let i = choose|i: int| 0 <= i < (head + unit).len() && (head + unit)[i] == 0;
            if i < head.len() {
                assert(head[i] == 0);
                assert(head.contains(0));
            } else {
                assert(unit[i - head.len()] == 0);
            }
        }
    }
}

/// Quoting puts no nul into an argument that holds none.
pub proof fn lemma_quoted_nul_free(arg: Seq<u16>)
    requires
        !arg.contains(0),
    ensures
        !quoted(arg).contains(0),
{
    if needs_quotes(arg) {
        lemma_escaped_prefix_nul_free(arg, arg.len() as int);
        let body = escaped_prefix(arg, arg.len() as int);
        let q = quoted(arg);
        if q.contains(0) {
            let i = choose|i: int| 0 <= i < q.len() && q[i] == 0;
            if 1 <= i <= body.len() {
                assert(body[i - 1] == 0);
                assert(body.contains(0));
            }
        }
    }
}

/// A command line of parts that hold no nul holds none.
pub proof fn lemma_command_line_nul_free(program: Seq<u16>, args: Seq<Seq<u16>>)
    requires
        !program.contains(0),
        forall|i: int| 0 <= i < args.len() ==> !(#[trigger] args[i]).contains(0),
    ensures
        !command_line(program, args).contains(0),
    decreases args.len(),
{
    if args.len() == 0 {
        lemma_quoted_nul_free(program);
    } else {
        lemma_command_line_nul_free(program, args.drop_last());
        lemma_quoted_nul_free(args.last());
        let head = command_line(program, args.drop_last());
        let tail = quoted(args.last());
        let line = command_line(program, args);
        if line.contains(0) {
            let i = choose|i: int| 0 <= i < line.len() && line[i] == 0;
            if i < head.len() {
                assert(head[i] == 0);
                assert(head.contains(0));
            } else if i > head.len() {
                assert(tail[i - head.len() - 1] == 0);
                assert(tail.contains(0));
            }
        }
    }
}

/// A row of backslashes ends inside the sequence, holds backslashes only,
/// and stops at a unit that is none.
pub proof fn lemma_run_facts(units: Seq<u16>, i: int)
    requires
        0 <= i <= units.len(),
    ensures
        i + backslash_run(units, i) <= units.len(),
        forall|k: int| i <= k < i + backslash_run(units, i) ==> units[k] == BACKSLASH,
        i + backslash_run(units, i) < units.len() ==> units[i + backslash_run(units, i)]
            != BACKSLASH,
    decreases units.len() - i,
{
    if i < units.len() && units[i] == BACKSLASH {
        lemma_run_facts(units, i + 1);
    }
}

/// An argument that needs no quotes is read as it stands.
proof fn lemma_plain_parses_back(arg: Seq<u16>, i: int)
    requires
        !needs_quotes(arg),
        0 <= i <= arg.len(),
    ensures
        parsed_argument(arg, i, false) == arg.skip(i),
    decreases arg.len() - i,
{
    if i < arg.len() {
        let run = backslash_run(arg, i);
        let next = i + run;
        lemma_run_facts(arg, i);
        if run > 0 {
            if next < arg.len() {
                assert(!is_special(arg[next]));
            }
            lemma_plain_parses_back(arg, next);
            assert(backslashes(run) + arg.skip(next) =~= arg.skip(i));
        } else {
            assert(!is_special(arg[i]));
            lemma_plain_parses_back(arg, i + 1);
            assert(seq![arg[i]] + arg.skip(i + 1) =~= arg.skip(i));
        }
    } else {
        assert(arg.skip(i) =~= Seq::<u16>::empty());
    }
}

/// What stands for the unit at `k` stands in what stands for any longer
/// prefix, behind what stands for the units before `k`.
proof fn lemma_escaped_unit_in_prefix(arg: Seq<u16>, k: int, n: int)
    requires
        0 <= k < n <= arg.len(),
    ensures
        escaped_prefix(arg, k + 1).len() == escaped_prefix(arg, k).len() + escaped_unit(
            arg,
            k,
        ).len(),
        escaped_prefix(arg, k + 1).len() <= escaped_prefix(arg, n).len(),
        forall|t: int|
            0 <= t < escaped_unit(arg, k).len() ==> escaped_prefix(arg, n)[escaped_prefix(
                arg,
                k,
            ).len() + t] == escaped_unit(arg, k)[t],
    decreases n - k,
{
    if n > k + 1 {
        lemma_escaped_unit_in_prefix(arg, k, n - 1);
    }
}

/// A row of backslashes in the argument is written as a row of
/// backslashes: twice as long where it leads up to a double quote or to
/// the end, and as long as it is otherwise.
proof fn lemma_escaped_run(arg: Seq<u16>, i: int, t: int, end: int)
    requires
        0 <= i <= t <= end <= arg.len(),
        forall|k: int| i <= k < end ==> arg[k] == BACKSLASH,
        end == arg.len() || arg[end] != BACKSLASH,
    ensures
        escaped_prefix(arg, t).len() == escaped_prefix(arg, i).len() + (t - i) * (if end
            == arg.len() || arg[end] == QUOTE {
            2int
        } else {
            1int
        }),
        forall|k: int|
            escaped_prefix(arg, i).len() <= k < escaped_prefix(arg, t).len() ==> escaped_prefix(
                arg,
                t,
            )[k] == BACKSLASH,
        forall|k: int|
            0 <= k < escaped_prefix(arg, i).len() ==> escaped_prefix(arg, t)[k] == escaped_prefix(
                arg,
                i,
            )[k],
    decreases t - i,
{
    if t > i {
        lemma_escaped_run(arg, i, t - 1, end);
        lemma_backslash_run(arg, t - 1, end);
    }
}

/// The command-line form of an argument that needs quotes.
spec fn quoted_line(arg: Seq<u16>) -> Seq<u16> {
    seq![QUOTE] + escaped_prefix(arg, arg.len() as int) + seq![QUOTE]
}

/// The units of the quoted form, by their position.
proof fn lemma_quoted_line(arg: Seq<u16>)
    ensures
        quoted_line(arg).len() == escaped_prefix(arg, arg.len() as int).len() + 2,
        quoted_line(arg)[0] == QUOTE,
        quoted_line(arg)[quoted_line(arg).len() - 1] == QUOTE,
        forall|k: int|
            0 <= k < escaped_prefix(arg, arg.len() as int).len() ==> quoted_line(arg)[k + 1]
                == escaped_prefix(arg, arg.len() as int)[k],
{
}

/// Behind the opening quote, what is written for the units from `i` on is
/// read as those units.
proof fn lemma_quoted_parses_back_from(arg: Seq<u16>, i: int)
    requires
        0 <= i <= arg.len(),
    ensures
        parsed_argument(quoted_line(arg), 1 + escaped_prefix(arg, i).len() as int, true)
            == arg.skip(i),
    decreases arg.len() - i,
{
    let len = arg.len() as int;
    let line = quoted_line(arg);
    let body = escaped_prefix(arg, len);
    let p: int = 1 + escaped_prefix(arg, i).len() as int;
    lemma_quoted_line(arg);
    if i == len {
        assert(line[p] == QUOTE);
        assert(backslash_run(line, p) == 0);
        assert(parsed_argument(line, p + 1, false) =~= Seq::<u16>::empty());
        assert(arg.skip(i) =~= Seq::<u16>::empty());
    } else {
        let run = backslash_run(arg, i) as int;
        let end = i + run;
        lemma_run_facts(arg, i);
        if run == 0 {
            lemma_escaped_unit_in_prefix(arg, i, len);
            lemma_quoted_parses_back_from(arg, i + 1);
            if arg[i] == QUOTE {
                assert(escaped_unit(arg, i) =~= seq![BACKSLASH, QUOTE]);
                assert(body[p - 1] == escaped_unit(arg, i)[0]);
                assert(body[p] == escaped_unit(arg, i)[1]);
                assert(line[p] == BACKSLASH);
                assert(line[p + 1] == QUOTE);
                lemma_backslash_run(line, p, p + 1);
                assert(backslashes(0).push(QUOTE) + arg.skip(i + 1) =~= arg.skip(i));
            } else {
                assert(escaped_unit(arg, i) =~= seq![arg[i]]);
                assert(body[p - 1] == escaped_unit(arg, i)[0]);
                assert(line[p] == arg[i]);
                assert(backslash_run(line, p) == 0);
                assert(seq![arg[i]] + arg.skip(i + 1) =~= arg.skip(i));
            }
        } else {
            lemma_escaped_run(arg, i, end, end);
            let q: int = 1 + escaped_prefix(arg, end).len() as int;
            assert forall|k: int| p <= k < q implies line[k] == BACKSLASH by {
                if end < len {
                    lemma_escaped_unit_in_prefix(arg, end, len);
                    lemma_escaped_run(arg, end, end, end);
                }
                lemma_prefix_of_body(arg, end, k - 1);
            }
            if end == len {
                assert(q == line.len() - 1);
                assert(line[q] == QUOTE);
                lemma_backslash_run(line, p, q);
                assert(backslash_run(line, p) == 2 * run);
                assert(parsed_argument(line, q + 1, false) =~= Seq::<u16>::empty());
                assert(backslashes(run as nat) + Seq::<u16>::empty() =~= arg.skip(i));
            } else {
                lemma_escaped_unit_in_prefix(arg, end, len);
                if arg[end] == QUOTE {
                    assert(escaped_unit(arg, end) =~= seq![BACKSLASH, QUOTE]);
                    assert(body[q - 1] == escaped_unit(arg, end)[0]);
                    assert(body[q] == escaped_unit(arg, end)[1]);
                    assert(line[q] == BACKSLASH);
                    assert(line[q + 1] == QUOTE);
                    lemma_backslash_run(line, p, q + 1);
                    assert(backslash_run(line, p) == 2 * run + 1);
                    lemma_quoted_parses_back_from(arg, end + 1);
                    assert(backslashes(run as nat).push(QUOTE) + arg.skip(end + 1) =~= arg.skip(i));
                } else {
                    assert(escaped_unit(arg, end) =~= seq![arg[end]]);
                    assert(body[q - 1] == escaped_unit(arg, end)[0]);
                    assert(line[q] == arg[end]);
                    lemma_backslash_run(line, p, q);
                    assert(backslash_run(line, p) == run);
                    lemma_quoted_parses_back_from(arg, end);
                    assert(backslashes(run as nat) + arg.skip(end) =~= arg.skip(i));
                }
            }
        }
    }
}

/// What stands for a prefix of the argument stands at the front of what
/// stands for the whole.
proof fn lemma_prefix_of_body(arg: Seq<u16>, n: int, k: int)
    requires
        0 <= n <= arg.len(),
        0 <= k < escaped_prefix(arg, n).len(),
    ensures
        escaped_prefix(arg, n).len() <= escaped_prefix(arg, arg.len() as int).len(),
        escaped_prefix(arg, arg.len() as int)[k] == escaped_prefix(arg, n)[k],
    decreases arg.len() - n,
{
    if n < arg.len() {
        lemma_prefix_of_body(arg, n + 1, k);
    }
}

/// Quoting is undone by the rules by which a command line is read: the
/// program that is launched finds in its argument what was put in.
pub proof fn lemma_quoted_parses_back(arg: Seq<u16>)
    ensures
        parsed_argument(quoted(arg), 0, false) == arg,
{
    if needs_quotes(arg) {
        let line = quoted_line(arg);
        lemma_quoted_line(arg);
        assert(line[0] == QUOTE);
        assert(backslash_run(line, 0) == 0);
        lemma_quoted_parses_back_from(arg, 0);
        assert(arg.skip(0) =~= arg);
    } else {
        lemma_plain_parses_back(arg, 0);
        assert(arg.skip(0) =~= arg);
    }
}

/// Whether the argument has to be quoted.
pub fn needs_escape(arg: &[u16]) -> (r: bool)
    ensures
        r == needs_quotes(arg@),
{
    if arg.len() == 0 {
        return true;
    }
    let mut i: usize = 0;
    while i < arg.len()
        invariant
            i <= arg@.len(),
            forall|k: int| 0 <= k < i ==> !is_special(#[trigger] arg@[k]),
        decreases arg@.len() - i,
    {
        let unit = arg[i];
        if unit == SPACE || unit == TAB || unit == NEWLINE || unit == QUOTE {
            return true;
        }
        i += 1;
    }
    false
}

/// Writes an argument as it has to stand on a command line. An argument
/// without white space or double quote is left as it is. Any other, and
/// the empty one, is put between double quotes, with a backslash before
/// each double quote in it and every backslash doubled that leads up to a
/// double quote, the closing one included.
pub fn escape(arg: &[u16]) -> (out: Vec<u16>)
    ensures
        out@ == quoted(arg@),
{
    if !needs_escape(arg) {
        return slice_to_vec(arg);
    }
    let mut out: Vec<u16> = Vec::new();
    out.push(QUOTE);
    let mut i: usize = 0;
    while i < arg.len()
        invariant
            i <= arg@.len(),
            out@ == seq![QUOTE] + escaped_prefix(arg@, i as int),
        decreases arg@.len() - i,
    {
        let mut end: usize = i;
        while end < arg.len() && arg[end] == BACKSLASH
            invariant
                i <= end <= arg@.len(),
                forall|k: int| i <= k < end ==> arg@[k] == BACKSLASH,
            decreases arg@.len() - end,
        {
            end += 1;
        }
        let double = end == arg.len() || arg[end] == QUOTE;
        let mut k: usize = i;
        while k < end
            invariant
                i <= k <= end <= arg@.len(),
                forall|m: int| i <= m < end ==> arg@[m] == BACKSLASH,
                end == arg@.len() || arg@[end as int] != BACKSLASH,
                double == (end == arg@.len() || arg@[end as int] == QUOTE),
                out@ == seq![QUOTE] + escaped_prefix(arg@, k as int),
            decreases end - k,
        {
            proof {
                lemma_backslash_run(arg@, k as int, end as int);
            }
            out.push(BACKSLASH);
            if double {
                out.push(BACKSLASH);
            }
            k += 1;
            assert(out@ =~= seq![QUOTE] + escaped_prefix(arg@, k as int));
        }
        if end < arg.len() {
            let unit = arg[end];
            if unit == QUOTE {
                out.push(BACKSLASH);
            }
            out.push(unit);
            i = end + 1;
            assert(out@ =~= seq![QUOTE] + escaped_prefix(arg@, i as int));
        } else {
            i = end;
        }
    }
    out.push(QUOTE);
    assert(out@ =~= quoted(arg@));
    out
}

} // verus!
