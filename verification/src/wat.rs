//! Generation of the stack-heavy WebAssembly test program used to exercise stack limits.
use vstd::prelude::*;
use vstd::string::StringExecFns;

verus! {

pub open spec fn digit_char(d: nat) -> char {
    if d == 0 {
        '0'
    } else if d == 1 {
        '1'
    } else if d == 2 {
        '2'
    } else if d == 3 {
        '3'
    } else if d == 4 {
        '4'
    } else if d == 5 {
        '5'
    } else if d == 6 {
        '6'
    } else if d == 7 {
        '7'
    } else if d == 8 {
        '8'
    } else {
        '9'
    }
}

/// The decimal representation of `n`.
pub open spec fn decimal(n: nat) -> Seq<char>
    decreases n,
{
    if n < 10 {
        seq![digit_char(n)]
    } else {
        decimal(n / 10) + seq![digit_char(n % 10)]
    }
}

fn digit_str(d: usize) -> (r: &'static str)
    requires
        d < 10,
    ensures
        r@ == seq![digit_char(d as nat)],
{
    if d == 0 {
        proof { reveal_strlit("0"); }
        "0"
    } else if d == 1 {
        proof { reveal_strlit("1"); }
        "1"
    } else if d == 2 {
        proof { reveal_strlit("2"); }
        "2"
    } else if d == 3 {
        proof { reveal_strlit("3"); }
        "3"
    } else if d == 4 {
        proof { reveal_strlit("4"); }
        "4"
    } else if d == 5 {
        proof { reveal_strlit("5"); }
        "5"
    } else if d == 6 {
        proof { reveal_strlit("6"); }
        "6"
    } else if d == 7 {
        proof { reveal_strlit("7"); }
        "7"
    } else if d == 8 {
        proof { reveal_strlit("8"); }
        "8"
    } else {
        proof { reveal_strlit("9"); }
        "9"
    }
}

/// Append the decimal representation of `n` to `s`.
fn push_decimal(s: &mut String, n: usize)
    ensures
        final(s)@ == old(s)@ + decimal(n as nat),
    decreases n,
{
    if n >= 10 {
        push_decimal(s, n / 10);
    }
    s.append(digit_str(n % 10));
    proof {
        assert(old(s)@ + decimal(n as nat) =~= (if n >= 10 {
            old(s)@ + decimal((n / 10) as nat)
        } else {
            old(s)@
        }) + seq![digit_char((n % 10) as nat)]);
    }
}

/// The import of a hostcall of type `() -> i64` named `h`.
pub open spec fn import_line(h: Seq<char>) -> Seq<char> {
    "  (func $"@ + h + " (import \"env\" \""@ + h + "\") (result i64))\n"@
}

/// The imports of the hostcalls `hs`, in order.
pub open spec fn imports(hs: Seq<&str>) -> Seq<char>
    decreases hs.len(),
{
    if hs.len() == 0 {
        Seq::empty()
    } else {
        imports(hs.drop_last()) + import_line(hs.last()@)
    }
}

/// `n` repetitions of `s`.
pub open spec fn repeat(s: Seq<char>, n: nat) -> Seq<char>
    decreases n,
{
    if n == 0 {
        Seq::empty()
    } else {
        repeat(s, (n - 1) as nat) + s
    }
}

/// The first use of local `i`.
pub open spec fn first_use(i: nat) -> Seq<char> {
    "(set_local "@ + decimal(i) + " (i64.add (get_local "@ + decimal((i - 1) as nat)
        + ") (i64.xor (get_local "@ + decimal(i) + ") (i64.const "@ + decimal(i) + "))))\n"@
}

/// The first uses of the locals `1..k`.
pub open spec fn first_uses(k: nat) -> Seq<char>
    decreases k,
{
    if k <= 1 {
        Seq::empty()
    } else {
        first_uses((k - 1) as nat) + first_use((k - 1) as nat)
    }
}

/// The second use of local `i`.
pub open spec fn second_use(i: nat) -> Seq<char> {
    "(set_local "@ + decimal(i) + " (i64.add (get_local "@ + decimal((i - 1) as nat)
        + ") (i64.and (get_local "@ + decimal(i) + ") (i64.const "@ + decimal(i) + "))))\n"@
}

/// The second uses of the locals `2..k`.
pub open spec fn second_uses(k: nat) -> Seq<char>
    decreases k,
{
    if k <= 2 {
        Seq::empty()
    } else {
        second_uses((k - 1) as nat) + second_use((k - 1) as nat)
    }
}

/// Append the first use of local `i` to `s`.
fn push_first_use(s: &mut String, i: usize)
    requires
        i >= 1,
    ensures
        final(s)@ == old(s)@ + first_use(i as nat),
{
    s.append("(set_local ");
    push_decimal(s, i);
    s.append(" (i64.add (get_local ");
    push_decimal(s, i - 1);
    s.append(") (i64.xor (get_local ");
    push_decimal(s, i);
    s.append(") (i64.const ");
    push_decimal(s, i);
    s.append("))))\n");
    proof {
        assert(s@ =~= old(s)@ + first_use(i as nat));
    }
}

/// Append the second use of local `i` to `s`.
fn push_second_use(s: &mut String, i: usize)
    requires
        i >= 1,
    ensures
        final(s)@ == old(s)@ + second_use(i as nat),
{
    s.append("(set_local ");
    push_decimal(s, i);
    s.append(" (i64.add (get_local ");
    push_decimal(s, i - 1);
    s.append(") (i64.and (get_local ");
    push_decimal(s, i);
    s.append(") (i64.const ");
    push_decimal(s, i);
    s.append("))))\n");
    proof {
        assert(s@ =~= old(s)@ + second_use(i as nat));
    }
}

/// The test program with `n` `i64` locals, importing the hostcalls `hs`, whose recursive branch
/// runs `body` before recurring.
pub open spec fn test_wat(n: nat, hs: Seq<&str>, body: Seq<char>) -> Seq<char> {
    "(module\n"@ + imports(hs)
        + "  (func $localpalooza (export \"localpalooza\") (param i64) (result i64)\n"@
        + "(local "@ + repeat("i64 "@, n) + ")\n"@ + first_uses(n) + second_uses((n - 1) as nat)
        + "(if (i32.wrap_i64 (get_local 0))\n"@ + "  (then (set_local "@ + decimal((n - 1) as nat)
        + " (i64.add (get_local "@ + decimal((n - 2) as nat) + ")\n"@ + body
        + "      (call $localpalooza (i64.sub (get_local 0) (i64.const 1))))))\n"@
        + "  (else (set_local "@ + decimal((n - 1) as nat) + " (i64.add (get_local "@ + decimal(
        (n - 2) as nat,
    ) + ") (get_local "@ + decimal((n - 3) as nat) + ")))))\n"@ + "(get_local "@ + decimal(
        (n - 1) as nat,
    ) + ")\n"@ + "))\n"@
}

/// Generate a stack-heavy test program.
///
/// The caller counts locals in `i32` units; the program declares half as many `i64` locals, and
/// there must be more than two of them. `hostcalls` are functions of type `() -> i64`, imported by
/// the given names; `recursive_body` is a body taking and returning an `i32`, run before each
/// recursive call.
pub fn generate_test_wat(
    num_i32_locals: usize,
    hostcalls: &[&str],
    recursive_body: Option<&str>,
) -> (r: String)
    requires
        num_i32_locals / 2 > 2,
    ensures
        r@ == test_wat(
            (num_i32_locals / 2) as nat,
            hostcalls@,
            match recursive_body {
                Some(b) => b@,
                None => Seq::empty(),
            },
        ),
{
    let num_locals = num_i32_locals / 2;

    let mut module = String::from_str("(module\n");
    let mut h: usize = 0;
    while h < hostcalls.len()
        invariant
            0 <= h <= hostcalls@.len(),
            module@ == "(module\n"@ + imports(hostcalls@.subrange(0, h as int)),
        decreases hostcalls@.len() - h,
    {
        let name = hostcalls[h];
        module.append("  (func $");
        module.append(name);
        module.append(" (import \"env\" \"");
        module.append(name);
        module.append("\") (result i64))\n");
        proof {
            let sub = hostcalls@.subrange(0, h + 1);
            assert(sub.drop_last() =~= hostcalls@.subrange(0, h as int));
            assert(sub.last() == name);
            assert(module@ =~= "(module\n"@ + imports(sub));
        }
        h = h + 1;
    }
    assert(hostcalls@.subrange(0, hostcalls@.len() as int) =~= hostcalls@);
    let ghost header = module@;
    module.append("  (func $localpalooza (export \"localpalooza\") (param i64) (result i64)\n");

    // Declare locals:
    module.append("(local ");
    let ghost before_locals = module@;
    let mut i: usize = 0;
    while i < num_locals
        invariant
            0 <= i <= num_locals,
            module@ == before_locals + repeat("i64 "@, i as nat),
        decreases num_locals - i,
    {
        module.append("i64 ");
        i = i + 1;
    }
    module.append(")\n");

    // Use each local for the first time:
    let ghost before_first = module@;
    let mut i: usize = 1;
    assert(module@ =~= before_first + first_uses(1));
    while i < num_locals
        invariant
            1 <= i <= num_locals,
            module@ == before_first + first_uses(i as nat),
        decreases num_locals - i,
    {
        push_first_use(&mut module, i);
        proof {
            assert(module@ =~= before_first + first_uses((i + 1) as nat));
        }
        i = i + 1;
    }

    // Use each local for a second time, so they get pushed to the stack between uses:
    let ghost before_second = module@;
    let mut i: usize = 2;
    assert(module@ =~= before_second + second_uses(2));
    while i < num_locals - 1
        invariant
            2 <= i <= num_locals - 1,
            num_locals > 2,
            module@ == before_second + second_uses(i as nat),
        decreases num_locals - 1 - i,
    {
        push_second_use(&mut module, i);
        proof {
            assert(module@ =~= before_second + second_uses((i + 1) as nat));
        }
        i = i + 1;
    }

    // Keep locals alive across a recursive call. Make as many recursive calls as the first
    // argument to the func:
    module.append("(if (i32.wrap_i64 (get_local 0))\n");
    module.append("  (then (set_local ");
    push_decimal(&mut module, num_locals - 1);
    module.append(" (i64.add (get_local ");
    push_decimal(&mut module, num_locals - 2);
    module.append(")\n");
    if let Some(body) = recursive_body {
        module.append(body);
    } else {
        assert(module@ =~= module@ + Seq::<char>::empty());
    }
    module.append("      (call $localpalooza (i64.sub (get_local 0) (i64.const 1))))))\n");
    module.append("  (else (set_local ");
    push_decimal(&mut module, num_locals - 1);
    module.append(" (i64.add (get_local ");
    push_decimal(&mut module, num_locals - 2);
    module.append(") (get_local ");
    push_decimal(&mut module, num_locals - 3);
    module.append(")))))\n");

    module.append("(get_local ");
    push_decimal(&mut module, num_locals - 1);
    module.append(")\n");
    module.append("))\n");
    proof {
        let body: Seq<char> = match recursive_body {
            Some(b) => b@,
            None => Seq::empty(),
        };
        assert(module@ =~= test_wat(num_locals as nat, hostcalls@, body));
    }
    module
}

} // verus!
