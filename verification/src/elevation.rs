//! Starting the program again with more rights: the texts that the relaunch request
//! carries.

use crate::text::chars_of;
use vstd::prelude::*;

verus! {

/// The UTF-16 units of a character: one, or a surrogate pair.
pub open spec fn utf16_units(c: char) -> Seq<u16> {
    let v = c as int;
    if v < 0x10000 {
        seq![v as u16]
    } else {
        seq![(0xD800 + (v - 0x10000) / 0x400) as u16, (0xDC00 + (v - 0x10000) % 0x400) as u16]
    }
}

/// Characters are Unicode scalar values.
proof fn lemma_char(c: char)
    ensures
        0 <= c as int <= 0x10FFFF,
        !(0xD800 <= c as int <= 0xDFFF),
{
}

/// The UTF-16 units of a text.
pub open spec fn utf16(s: Seq<char>) -> Seq<u16>
    decreases s.len(),
{
    if s.len() == 0 {
        Seq::empty()
    } else {
        utf16(s.drop_last()) + utf16_units(s.last())
    }
}

/// A text in UTF-16 with a closing zero.
pub fn wide(s: &str) -> (r: Vec<u16>)
    ensures
        r@ == utf16(s@).push(0),
{
    let chars: Vec<char> = chars_of(s);
    let n: usize = chars.len();
    let mut out: Vec<u16> = Vec::new();
    let mut i: usize = 0;
    while i < n
        invariant
            i <= n,
            n == chars@.len(),
            out@ == utf16(chars@.take(i as int)),
        decreases n - i,
    {
        let c: char = chars[i];
        let v: u32 = c as u32;
        proof {
            lemma_char(c);
        }
        let ghost before = out@;
        if v < 0x10000 {
            out.push(v as u16);
        } else {
            out.push((0xD800 + (v - 0x10000) / 0x400) as u16);
            out.push((0xDC00 + (v - 0x10000) % 0x400) as u16);
        }
        proof {
            assert(chars@.take(i + 1).drop_last() =~= chars@.take(i as int));
            assert(out@ =~= before + utf16_units(chars@[i as int]));
        }
        i = i + 1;
    }
    proof {
        assert(chars@.take(n as int) =~= chars@);
    }
    out.push(0);
    out
}

/// Texts with a space between each two.
pub open spec fn joined(args: Seq<String>) -> Seq<char>
    decreases args.len(),
{
    if args.len() == 0 {
        Seq::empty()
    } else if args.len() == 1 {
        args[0]@
    } else {
        joined(args.drop_last()) + " "@ + args.last()@
    }
}

/// The command line of the relaunched program.
pub fn join_args(args: &[String]) -> (r: String)
    ensures
        r@ == joined(args@),
{
    let n: usize = args.len();
    let mut out: String = String::new();
    let mut i: usize = 0;
    proof {
        assert(out@ =~= joined(args@.take(0)));
    }
    while i < n
        invariant
            i <= n,
            n == args@.len(),
            out@ == joined(args@.take(i as int)),
        decreases n - i,
    {
        proof {
            assert(args@.take(i + 1).drop_last() =~= args@.take(i as int));
        }
        if i > 0 {
            out.append(" ");
        }
        out.append(args[i].as_str());
        proof {
            if i == 0 {
                assert(out@ =~= args@[0]@);
            }
        }
        i = i + 1;
    }
    proof {
        assert(args@.take(n as int) =~= args@);
    }
    out
}

/// What a relaunch request carries; an empty command line or directory is left out.
#[derive(Debug)]
pub struct Relaunch {
    pub verb: Vec<u16>,
    pub file: Vec<u16>,
    pub parameters: Option<Vec<u16>>,
    pub directory: Option<Vec<u16>>,
}

/// The request that a program without the rights makes; none where it has them.
pub fn ensure_elevated(elevated: bool, exe: &str, args: &[String], cwd: &str) -> (r: Option<
    Relaunch,
>)
    ensures
        match r {
            None => elevated,
            Some(q) => {
                &&& !elevated
                &&& q.verb@ == utf16("runas"@).push(0)
                &&& q.file@ == utf16(exe@).push(0)
                &&& match q.parameters {
                    Some(p) => joined(args@).len() > 0 && p@ == utf16(joined(args@)).push(0),
                    None => joined(args@).len() == 0,
                }
                &&& match q.directory {
                    Some(d) => cwd@.len() > 0 && d@ == utf16(cwd@).push(0),
                    None => cwd@.len() == 0,
                }
            },
        },
{
    if elevated {
        return None;
    }
    let params: String = join_args(args);
    let parameters = if params.as_str().unicode_len() == 0 {
        None
    } else {
        Some(wide(params.as_str()))
    };
    let directory = if cwd.unicode_len() == 0 {
        None
    } else {
        Some(wide(cwd))
    };
    Some(Relaunch { verb: wide("runas"), file: wide(exe), parameters, directory })
}

/// No two texts have the same UTF-16 form.
pub proof fn wide_tells_texts_apart(a: Seq<char>, b: Seq<char>)
    requires
        utf16(a) == utf16(b),
    ensures
        a == b,
    decreases a.len() + b.len(),
{
    if a.len() == 0 || b.len() == 0 {
        if b.len() > 0 {
            assert(utf16(b).len() > 0);
        }
        if a.len() > 0 {
            assert(utf16(a).len() > 0);
        }
        assert(a =~= b);
    } else {
        let ca = a.last();
        let cb = b.last();
        lemma_char(ca);
        lemma_char(cb);
        let ua = utf16(a);
        let ub = utf16(b);
        let x = utf16_units(a.last());
        let y = utf16_units(b.last());
        let pa = utf16(a.drop_last());
        let pb = utf16(b.drop_last());
        assert(ua == pa + x);
        assert(ub == pb + y);
        assert(ua.last() == x.last());
        assert(ub.last() == y.last());
        assert(x.len() == y.len());
        assert(pa =~= ua.take(ua.len() - x.len()));
        assert(pb =~= ub.take(ub.len() - y.len()));
        assert(x =~= ua.skip(ua.len() - x.len()));
        assert(y =~= ub.skip(ub.len() - y.len()));
        assert(x[0] == y[0]);
        assert(a.last() == b.last());
        wide_tells_texts_apart(a.drop_last(), b.drop_last());
        assert(a =~= a.drop_last().push(a.last()));
        assert(b =~= b.drop_last().push(b.last()));
    }
}

/// The character that UTF-16 units stand for.
pub open spec fn char_of_units(u: Seq<u16>) -> int {
    if u.len() == 1 {
        u[0] as int
    } else {
        0x10000 + (u[0] - 0xD800) * 0x400 + (u[1] - 0xDC00)
    }
}

/// A character reads back from its UTF-16 units: one, which is no surrogate, or a high one
/// followed by a low one.
pub proof fn units_read_back(c: char)
    ensures
        char_of_units(utf16_units(c)) == c as int,
        utf16_units(c).len() == 1 || utf16_units(c).len() == 2,
        utf16_units(c).len() == 1 ==> !(0xD800 <= utf16_units(c)[0] < 0xE000),
        utf16_units(c).len() == 2 ==> 0xD800 <= utf16_units(c)[0] < 0xDC00 && 0xDC00
            <= utf16_units(c)[1] < 0xE000,
{
}

/// A wide text holds the units of its characters in their order, then a zero.
pub proof fn wide_texts_end_in_zero(s: &str, r: Vec<u16>, c: char, t: Seq<char>)
    requires
        call_ensures(wide, (s,), r),
    ensures
        r@.len() >= 1,
        r@.last() == 0,
        s@ == t.push(c) ==> r@.drop_last() == utf16(t) + utf16_units(c),
        s@.len() == 0 ==> r@.len() == 1,
{
    if s@ == t.push(c) {
        assert(t.push(c).drop_last() =~= t);
        assert(r@.drop_last() =~= utf16(s@));
    }
}

/// Arguments are joined in their order with one space between each two, none before the
/// first and none after the last.
pub proof fn arguments_are_joined_by_spaces(args: &[String], r: String)
    requires
        call_ensures(join_args, (args,), r),
    ensures
        args@.len() == 0 ==> r@.len() == 0,
        args@.len() == 1 ==> r@ == args@[0]@,
        args@.len() >= 2 ==> r@ == joined(args@.drop_last()) + seq![' '] + args@.last()@,
{
    reveal_strlit(" ");
    assert(" "@ =~= seq![' ']);
}

/// A program that has the rights asks for nothing; one that has not asks to run the same
/// program, with its arguments and in its directory where there are any.
pub proof fn relaunches_repeat_the_call(
    elevated: bool,
    exe: &str,
    args: &[String],
    cwd: &str,
    r: Option<Relaunch>,
)
    requires
        call_ensures(ensure_elevated, (elevated, exe, args, cwd), r),
    ensures
        r is Some <==> !elevated,
        r matches Some(q) ==> {
            &&& q.verb@ == seq!['r' as u16, 'u' as u16, 'n' as u16, 'a' as u16, 's' as u16, 0]
            &&& q.file@ == utf16(exe@).push(0)
            &&& q.parameters is Some <==> joined(args@).len() > 0
            &&& q.parameters is Some ==> q.parameters->Some_0@ == utf16(joined(args@)).push(0)
            &&& q.directory is Some <==> cwd@.len() > 0
            &&& q.directory is Some ==> q.directory->Some_0@ == utf16(cwd@).push(0)
        },
{
    reveal_strlit("runas");
    reveal_with_fuel(utf16, 6);
    let v = "runas"@;
    assert(v.drop_last() =~= seq!['r', 'u', 'n', 'a']);
    assert(v.drop_last().drop_last() =~= seq!['r', 'u', 'n']);
    assert(v.drop_last().drop_last().drop_last() =~= seq!['r', 'u']);
    assert(v.drop_last().drop_last().drop_last().drop_last() =~= seq!['r']);
    assert(v.drop_last().drop_last().drop_last().drop_last().drop_last() =~= Seq::empty());
    assert(utf16(v) =~= seq!['r' as u16, 'u' as u16, 'n' as u16, 'a' as u16, 's' as u16]);
}

} // verus!
