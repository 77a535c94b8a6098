//! Splitting a test-case command line into arguments.

use vstd::prelude::*;

verus! {

/// Whether an odd number of double quotes stand before `pos`, so that a
/// space at `pos` is part of an argument.
pub open spec fn quoted_before(line: Seq<u8>, pos: int) -> bool
    decreases pos,
{
    if pos <= 0 {
        false
    } else {
        quoted_before(line, pos - 1) != (line[pos - 1] == 0x22u8)
    }
}

/// Whether the byte at `pos` separates two arguments.
pub open spec fn splits_at(line: Seq<u8>, pos: int) -> bool {
    line[pos] == 0x20u8 && !quoted_before(line, pos)
}

/// The non-empty arguments of `line` from `pos` on, when the argument under
/// way started at `start`.
pub open spec fn args_from(line: Seq<u8>, start: int, pos: int) -> Seq<Seq<u8>>
    decreases line.len() - pos,
{
    if pos >= line.len() {
        if start < line.len() {
            seq![line.subrange(start, line.len() as int)]
        } else {
            Seq::empty()
        }
    } else if splits_at(line, pos) {
        (if start < pos {
            seq![line.subrange(start, pos)]
        } else {
            Seq::empty()
        }) + args_from(line, pos + 1, pos + 1)
    } else {
        args_from(line, start, pos + 1)
    }
}

/// The arguments of a command line: the non-empty pieces between spaces
/// that stand outside double quotes. The quotes stay in the pieces.
pub open spec fn command_args(line: Seq<u8>) -> Seq<Seq<u8>> {
    args_from(line, 0, 0)
}

proof fn args_from_nonempty(line: Seq<u8>, start: int, pos: int)
    requires
        0 <= start <= pos <= line.len(),
    ensures
        forall|i: int| 0 <= i < args_from(line, start, pos).len() ==> #[trigger] args_from(line, start, pos)[i].len() > 0,
        args_from(line, start, pos).len() <= line.len() - start,
    decreases line.len() - pos,
{
    if pos >= line.len() {
    } else if splits_at(line, pos) {
        args_from_nonempty(line, pos + 1, pos + 1);
        let head: Seq<Seq<u8>> = if start < pos {
            seq![line.subrange(start, pos)]
        } else {
            Seq::empty()
        };
        let rest = args_from(line, pos + 1, pos + 1);
        assert(args_from(line, start, pos) == head + rest);
        assert forall|i: int| 0 <= i < (head + rest).len() implies #[trigger] (head + rest)[i].len() > 0 by {
            if i >= head.len() {
                assert((head + rest)[i] == rest[i - head.len()]);
            }
        }
    } else {
        args_from_nonempty(line, start, pos + 1);
    }
}

/// Every argument of a command line holds at least one byte, so there are
/// at most as many arguments as bytes.
pub proof fn command_args_nonempty(line: Seq<u8>)
    ensures
        forall|i: int| 0 <= i < command_args(line).len() ==> #[trigger] command_args(line)[i].len() > 0,
        command_args(line).len() <= line.len(),
{
    args_from_nonempty(line, 0, 0);
}

/// The bytes of `line` from `a` up to `b`.
fn copy_range(line: &[u8], a: usize, b: usize) -> (r: Vec<u8>)
    requires
        a <= b <= line@.len(),
    ensures
        r@ == line@.subrange(a as int, b as int),
{
    let mut r: Vec<u8> = Vec::new();
    let mut k: usize = a;
    while k < b
        invariant
            a <= k <= b <= line@.len(),
            r@ == line@.subrange(a as int, k as int),
        decreases b - k,
    {
        r.push(line[k]);
        k = k + 1;
        assert(r@ =~= line@.subrange(a as int, k as int));
    }
    r
}

/// Splits a command line into its arguments (see `command_args`). It
/// works on bytes and takes any input; the pieces of a UTF-8 line are UTF-8
/// again, since it splits only at ASCII spaces, and turning them into text
/// is the caller's part.
pub fn get_args(command_line: &[u8]) -> (r: Vec<Vec<u8>>)
    ensures
        r@.map_values(|v: Vec<u8>| v@) == command_args(command_line@),
{
    let mut args: Vec<Vec<u8>> = Vec::new();
    let mut in_quote = false;
    let mut arg_start: usize = 0;
    let mut pos: usize = 0;
    let ghost line = command_line@;
    while pos < command_line.len()
        invariant
            line == command_line@,
            arg_start <= pos <= line.len(),
            in_quote == quoted_before(line, pos as int),
            args@.map_values(|v: Vec<u8>| v@) + args_from(line, arg_start as int, pos as int)
                == command_args(line),
        decreases line.len() - pos,
    {
        let ghost before = args@.map_values(|v: Vec<u8>| v@);
        if command_line[pos] == 0x22u8 {
            in_quote = !in_quote;
        }
        if command_line[pos] == 0x20u8 && !in_quote {
            if arg_start != pos {
                let piece = copy_range(command_line, arg_start, pos);
                args.push(piece);
                assert(args@.map_values(|v: Vec<u8>| v@) =~= before.push(
                    line.subrange(arg_start as int, pos as int),
                ));
                assert(before + args_from(line, arg_start as int, pos as int) =~= args@.map_values(
                    |v: Vec<u8>| v@,
                ) + args_from(line, pos + 1, pos + 1));
            } else {
                assert(before + args_from(line, arg_start as int, pos as int) =~= args@.map_values(
                    |v: Vec<u8>| v@,
                ) + args_from(line, pos + 1, pos + 1));
            }
            arg_start = pos + 1;
        }
        pos = pos + 1;
    }
    if arg_start != command_line.len() {
        let ghost before = args@.map_values(|v: Vec<u8>| v@);
        let piece = copy_range(command_line, arg_start, command_line.len());
        args.push(piece);
        assert(args@.map_values(|v: Vec<u8>| v@) =~= before.push(
            line.subrange(arg_start as int, line.len() as int),
        ));
        assert(before + args_from(line, arg_start as int, pos as int) =~= args@.map_values(
            |v: Vec<u8>| v@,
        ));
    } else {
        assert(args@.map_values(|v: Vec<u8>| v@) + args_from(line, arg_start as int, pos as int)
            =~= args@.map_values(|v: Vec<u8>| v@));
    }
    args
}

} // verus!
