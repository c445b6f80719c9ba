//! Window settings: the command-line geometry parser and the initial
//! settings record. The window shell hands the raw argument strings in and
//! registers the returned record; no I/O happens here.

use vstd::prelude::*;

verus! {

use vstd::string::StringSliceAdditionalSpecFns;

/// Default window geometry, in cells across.
pub const INITIAL_WIDTH: u64 = 100;

/// Default window geometry, in cells down.
pub const INITIAL_HEIGHT: u64 = 50;

/// The UTF-8 bytes of the geometry option prefix, `"--geometry="`.
pub open spec fn spec_geometry_prefix() -> Seq<u8> {
    seq![45u8, 45u8, 103u8, 101u8, 111u8, 109u8, 101u8, 116u8, 114u8, 121u8, 61u8]
}

/// An ASCII decimal digit.
pub open spec fn spec_is_digit(b: u8) -> bool {
    48 <= b <= 57
}

/// The number a digit string denotes, most significant digit first.
pub open spec fn spec_digits_val(s: Seq<u8>) -> nat
    decreases s.len(),
{
    if s.len() == 0 {
        0
    } else {
        (spec_digits_val(s.drop_last()) * 10 + (s.last() - 48)) as nat
    }
}

/// Every byte is a digit.
pub open spec fn spec_all_digits(s: Seq<u8>) -> bool {
    forall|i: int| 0 <= i < s.len() ==> spec_is_digit(#[trigger] s[i])
}

/// What a dimension string parses to: one or more decimal digits denoting
/// a value that fits in a machine word; anything else is rejected.
pub open spec fn spec_parse_u64(s: Seq<u8>) -> Option<u64> {
    if s.len() > 0 && spec_all_digits(s) && spec_digits_val(s) <= u64::MAX {
        Some(spec_digits_val(s) as u64)
    } else {
        None
    }
}

/// The first position of `target` in `s` at or after `from`.
pub open spec fn spec_find_byte(s: Seq<u8>, from: int, target: u8) -> Option<int>
    decreases s.len() - from,
{
    if from < 0 || from >= s.len() {
        None
    } else if s[from] == target {
        Some(from)
    } else {
        spec_find_byte(s, from + 1, target)
    }
}

/// What a geometry value string parses to: `<width>x<height>`, exactly one
/// `x`, both sides positive numbers.
pub open spec fn spec_parse_geometry(input: Seq<u8>) -> Option<(u64, u64)> {
    match spec_find_byte(input, 0, 120) {
        None => None,
        Some(i) => {
            if spec_find_byte(input, i + 1, 120) is Some {
                None
            } else {
                match (
                    spec_parse_u64(input.subrange(0, i)),
                    spec_parse_u64(input.subrange(i + 1, input.len() as int)),
                ) {
                    (Some(w), Some(h)) => if w > 0 && h > 0 {
                        Some((w, h))
                    } else {
                        None
                    },
                    _ => None,
                }
            }
        },
    }
}

/// The value of the first argument carrying the geometry prefix, with the
/// prefix stripped; `None` when no argument carries it.
pub open spec fn spec_find_geometry(args: Seq<Seq<u8>>) -> Option<Seq<u8>>
    decreases args.len(),
{
    if args.len() == 0 {
        None
    } else if args[0].len() >= 11 && args[0].subrange(0, 11) == spec_geometry_prefix() {
        Some(args[0].subrange(11, args[0].len() as int))
    } else {
        spec_find_geometry(args.drop_first())
    }
}

/// The UTF-8 bytes of each argument string.
pub open spec fn spec_args_bytes(args: Seq<String>) -> Seq<Seq<u8>> {
    args.map(|i: int, s: String| vstd::utf8::encode_utf8(s@))
}

/// What the geometry option denotes over a whole argument list: the
/// default geometry when the option is absent, its parsed value when well
/// formed, and a rejection otherwise.
pub open spec fn spec_window_geometry(args: Seq<String>) -> Option<(u64, u64)> {
    match spec_find_geometry(spec_args_bytes(args)) {
        None => Some((INITIAL_WIDTH, INITIAL_HEIGHT)),
        Some(value) => spec_parse_geometry(value),
    }
}

/// A digit string is worth at least as much as any of its prefixes.
proof fn lemma_digits_val_prefix(s: Seq<u8>, i: int)
    requires
        0 <= i <= s.len(),
        spec_all_digits(s),
    ensures
        spec_digits_val(s.subrange(0, i)) <= spec_digits_val(s),
    decreases s.len() - i,
{
    if i == s.len() {
        assert(s.subrange(0, i) =~= s);
    } else {
        assert(s.subrange(0, i + 1).drop_last() =~= s.subrange(0, i));
        assert(s.subrange(0, i + 1).last() == s[i]);
        lemma_digits_val_prefix(s, i + 1);
    }
}

/// Parses the byte range `[from, to)` of `s` as a decimal number.
fn parse_u64_range(s: &[u8], from: usize, to: usize) -> (r: Option<u64>)
    requires
        from <= to <= s@.len(),
    ensures
        r == spec_parse_u64(s@.subrange(from as int, to as int)),
{
    let ghost digits = s@.subrange(from as int, to as int);
    if from == to {
        return None;
    }
    let mut acc: u64 = 0;
    let mut i: usize = from;
    while i < to
        invariant
            from <= i <= to <= s@.len(),
            digits == s@.subrange(from as int, to as int),
            spec_all_digits(digits.subrange(0, i - from)),
            acc == spec_digits_val(digits.subrange(0, i - from)),
        decreases to - i,
    {
        let b = s[i];
        if b < 48 || b > 57 {
            proof {
                assert(digits[i - from] == b);
                assert(!spec_all_digits(digits));
            }
            return None;
        }
        let d = (b - 48) as u64;
        if acc > (u64::MAX - d) / 10 {
            proof {
                assert(digits.subrange(0, i - from + 1).drop_last() =~= digits.subrange(
                    0,
                    i - from,
                ));
                assert(digits.subrange(0, i - from + 1).last() == digits[i - from]);
                assert(spec_digits_val(digits.subrange(0, i - from + 1)) == acc * 10 + d);
                assert(acc * 10 + d > u64::MAX) by (nonlinear_arith)
                    requires
                        acc > (u64::MAX - d) / 10,
                        0 <= d <= 9,
                        0 <= acc <= u64::MAX,
                ;
                if spec_all_digits(digits) {
                    lemma_digits_val_prefix(digits, i - from + 1);
                }
                assert(spec_parse_u64(digits) is None);
            }
            return None;
        }
        proof {
            assert(acc * 10 + d <= u64::MAX) by (nonlinear_arith)
                requires
                    acc <= (u64::MAX - d) / 10,
                    0 <= d <= 9,
                    0 <= acc,
            ;
            assert(digits.subrange(0, i - from + 1).drop_last() =~= digits.subrange(0, i - from));
            assert(digits.subrange(0, i - from + 1).last() == digits[i - from]);
        }
        acc = acc * 10 + d;
        i = i + 1;
    }
    proof {
        assert(digits.subrange(0, (to - from) as int) =~= digits);
    }
    Some(acc)
}

/// The first position of `target` in `s` at or after `from`.
fn find_byte(s: &[u8], from: usize, target: u8) -> (r: Option<usize>)
    requires
        from <= s@.len(),
    ensures
        match r {
            Some(i) => from <= i < s@.len() && Some(i as int) == spec_find_byte(
                s@,
                from as int,
                target,
            ),
            None => spec_find_byte(s@, from as int, target) is None,
        },
    decreases s@.len() - from,
{
    if from >= s.len() {
        return None;
    }
    if s[from] == target {
        return Some(from);
    }
    find_byte(s, from + 1, target)
}

/// The geometry prefix holds the first 11 bytes of `s`.
fn has_geometry_prefix(s: &[u8]) -> (r: bool)
    ensures
        r == (s@.len() >= 11 && s@.subrange(0, 11) == spec_geometry_prefix()),
{
    let prefix: [u8; 11] = [45u8, 45u8, 103u8, 101u8, 111u8, 109u8, 101u8, 116u8, 114u8, 121u8, 61u8];
    if s.len() < 11 {
        return false;
    }
    let mut i: usize = 0;
    while i < 11
        invariant
            i <= 11,
            s@.len() >= 11,
            prefix@ =~= spec_geometry_prefix(),
            forall|j: int| 0 <= j < i ==> s@[j] == spec_geometry_prefix()[j],
        decreases 11 - i,
    {
        if s[i] != prefix[i] {
            proof {
                assert(s@.subrange(0, 11)[i as int] == s@[i as int]);
                assert(s@.subrange(0, 11) != spec_geometry_prefix());
            }
            return false;
        }
        i = i + 1;
    }
    proof {
        assert(s@.subrange(0, 11) =~= spec_geometry_prefix());
    }
    true
}

/// Reads the window geometry off the argument list: the first argument of
/// the shape `--geometry=<width>x<height>` decides; without one the
/// default geometry holds. A malformed value — not exactly two positive
/// numbers around one `x`, or a number too large for a machine word — is
/// reported as an error message instead.
pub fn window_geometry(args: &Vec<String>) -> (r: Result<(u64, u64), String>)
    ensures
        match spec_window_geometry(args@) {
            Some(d) => r == Ok::<(u64, u64), String>(d),
            None => r is Err,
        },
{
    let ghost all = spec_args_bytes(args@);
    proof {
        assert(all.skip(0) =~= all);
    }
    let mut i: usize = 0;
    while i < args.len()
        invariant
            i <= args@.len(),
            all == spec_args_bytes(args@),
            spec_find_geometry(all) == spec_find_geometry(all.skip(i as int)),
        decreases args@.len() - i,
    {
        let arg: &String = &args[i];
        let bytes: &[u8] = arg.as_str().as_bytes();
        proof {
            assert(all.skip(i as int)[0] == all[i as int]);
            assert(bytes@ == all[i as int]);
        }
        if has_geometry_prefix(bytes) {
            let value_start: usize = 11;
            let parsed = parse_geometry_tail(bytes, value_start);
            proof {
                assert(spec_find_geometry(all.skip(i as int)) == Some(
                    all[i as int].subrange(11, all[i as int].len() as int),
                ));
            }
            return match parsed {
                Some(d) => Ok(d),
                None => Err(invalid_geometry_message()),
            };
        }
        proof {
            assert(all.skip(i as int).drop_first() =~= all.skip(i as int + 1));
        }
        i = i + 1;
    }
    proof {
        assert(all.skip(args@.len() as int).len() == 0);
    }
    Ok((INITIAL_WIDTH, INITIAL_HEIGHT))
}

/// Parses the value part of a geometry argument, after the prefix.
fn parse_geometry_tail(s: &[u8], from: usize) -> (r: Option<(u64, u64)>)
    requires
        from <= s@.len(),
    ensures
        r == spec_parse_geometry(s@.subrange(from as int, s@.len() as int)),
{
    let ghost tail = s@.subrange(from as int, s@.len() as int);
    let n = s.len();
    let i = match find_byte(s, from, 120) {
        Some(i) => i,
        None => {
            proof {
                lemma_find_byte_shift(s@, from as int, 0, 120);
            }
            return None;
        },
    };
    proof {
        lemma_find_byte_shift(s@, from as int, 0, 120);
    }
    match find_byte(s, i + 1, 120) {
        Some(_) => {
            proof {
                lemma_find_byte_shift(s@, from as int, i as int + 1 - from as int, 120);
            }
            None
        },
        None => {
            proof {
                lemma_find_byte_shift(s@, from as int, i as int + 1 - from as int, 120);
            }
            let w = match parse_u64_range(s, from, i) {
                Some(w) => w,
                None => {
                    proof {
                        assert(s@.subrange(from as int, i as int) =~= tail.subrange(
                            0,
                            i as int - from as int,
                        ));
                    }
                    return None;
                },
            };
            let h = match parse_u64_range(s, i + 1, n) {
                Some(h) => h,
                None => {
                    proof {
                        assert(s@.subrange(i as int + 1, s@.len() as int) =~= tail.subrange(
                            i as int + 1 - from as int,
                            tail.len() as int,
                        ));
                    }
                    return None;
                },
            };
            proof {
                assert(s@.subrange(from as int, i as int) =~= tail.subrange(
                    0,
                    i as int - from as int,
                ));
                assert(s@.subrange(i as int + 1, s@.len() as int) =~= tail.subrange(
                    i as int + 1 - from as int,
                    tail.len() as int,
                ));
            }
            if w > 0 && h > 0 {
                Some((w, h))
            } else {
                None
            }
        },
    }
}

/// Finding a byte within the tail of a sequence is finding it in the whole
/// sequence, shifted.
proof fn lemma_find_byte_shift(s: Seq<u8>, from: int, offset: int, target: u8)
    requires
        0 <= from <= s.len(),
        0 <= offset <= s.len() - from,
    ensures
        spec_find_byte(s, from + offset, target) == match spec_find_byte(
            s.subrange(from, s.len() as int),
            offset,
            target,
        ) {
            Some(i) => Some(i + from),
            None => None::<int>,
        },
    decreases s.len() - from - offset,
{
    let tail = s.subrange(from, s.len() as int);
    if offset >= tail.len() {
    } else {
        assert(tail[offset] == s[from + offset]);
        if s[from + offset] == target {
        } else {
            lemma_find_byte_shift(s, from, offset + 1, target);
        }
    }
}

/// The rejection message for a malformed geometry value.
fn invalid_geometry_message() -> String {
    "Invalid geometry: the valid format is <width>x<height> with positive numbers".to_owned()
}

/// Reads the window geometry, falling back on the default when the
/// argument is malformed as well as when it is absent.
pub fn window_geometry_or_default(args: &Vec<String>) -> (r: (u64, u64))
    ensures
        r == match spec_window_geometry(args@) {
            Some(d) => d,
            None => (INITIAL_WIDTH, INITIAL_HEIGHT),
        },
{
    match window_geometry(args) {
        Ok(d) => d,
        Err(_) => (INITIAL_WIDTH, INITIAL_HEIGHT),
    }
}

/// The window settings the shell registers at startup. Transparency is
/// kept in thousandths: 1000 is fully opaque.
#[derive(Debug, Copy, Clone, PartialEq, Eq, Structural)]
pub struct WindowSettings {
    pub refresh_rate: u64,
    pub transparency_milli: u32,
    pub no_idle: bool,
    pub fullscreen: bool,
}

/// Builds the startup window settings: a 60 Hz refresh rate, full opacity,
/// windowed mode, and idling disabled exactly when the argument list
/// carries `--noIdle`.
pub fn initialize_settings(neovim_arguments: &Vec<String>) -> (s: WindowSettings)
    ensures
        s.refresh_rate == 60,
        s.transparency_milli == 1000,
        !s.fullscreen,
        s.no_idle == exists|i: int|
            0 <= i < neovim_arguments@.len() && (#[trigger] neovim_arguments@[i])@ == "--noIdle"@,
{
    let flag: String = "--noIdle".to_owned();
    let mut no_idle = false;
    let mut i: usize = 0;
    while i < neovim_arguments.len()
        invariant
            i <= neovim_arguments@.len(),
            flag@ == "--noIdle"@,
            !no_idle,
            forall|j: int| 0 <= j < i ==> (#[trigger] neovim_arguments@[j])@ != "--noIdle"@,
        decreases neovim_arguments@.len() - i,
    {
        let arg: &String = &neovim_arguments[i];
        if *arg == flag {
            return WindowSettings {
                refresh_rate: 60,
                transparency_milli: 1000,
                no_idle: true,
                fullscreen: false,
            };
        }
        i = i + 1;
    }
    WindowSettings { refresh_rate: 60, transparency_milli: 1000, no_idle, fullscreen: false }
}

} // verus!
