//! Reading the container runtime's usage figures: memory amounts such as
//! `123.4MiB`, `1.2GB` or `512B` read exactly into bytes, CPU shares such as
//! `12.5%` into hundredths of a percent, and process counts.
use vstd::prelude::*;

use crate::text::{find_bytes, first_occurrence_from};

verus! {

pub open spec fn is_digit(b: u8) -> bool {
    48 <= b <= 57
}

/// Value of a string of decimal digits.
pub open spec fn digits_value(s: Seq<u8>) -> nat
    decreases s.len(),
{
    if s.len() == 0 {
        0
    } else {
        digits_value(s.drop_last()) * 10 + (s.last() - 48) as nat
    }
}

pub open spec fn pow10(n: nat) -> nat
    decreases n,
{
    if n == 0 {
        1
    } else {
        10 * pow10((n - 1) as nat)
    }
}

/// Reading of a decimal number `I`, `I.F` or `.F` from left to right:
/// the digits read as one number, the digits after the point, whether the
/// point was seen, and the number of digits. None once a byte is neither a
/// digit nor the first point.
pub open spec fn scan(s: Seq<u8>) -> Option<(nat, nat, bool, nat)>
    decreases s.len(),
{
    if s.len() == 0 {
        Some((0, 0, false, 0))
    } else {
        match scan(s.drop_last()) {
            None => None,
            Some((v, sc, dot, n)) => {
                let c = s.last();
                if is_digit(c) {
                    Some(((v * 10 + (c - 48)) as nat, if dot { sc + 1 } else { sc }, dot, n + 1))
                } else if c == 46 && !dot {
                    Some((v, sc, true, n))
                } else {
                    None
                }
            },
        }
    }
}

/// Bytes per unit for the accepted suffixes, and the suffix length.
pub open spec fn unit_of(s: Seq<u8>) -> Option<(nat, nat)> {
    if ends_with(s, seq![71u8, 105, 66]) {
        Some((1073741824, 3))
    } else if ends_with(s, seq![71u8, 66]) {
        Some((1073741824, 2))
    } else if ends_with(s, seq![77u8, 105, 66]) {
        Some((1048576, 3))
    } else if ends_with(s, seq![77u8, 66]) {
        Some((1048576, 2))
    } else if ends_with(s, seq![75u8, 105, 66]) {
        Some((1024, 3))
    } else if ends_with(s, seq![107u8, 66]) || ends_with(s, seq![75u8, 66]) {
        Some((1024, 2))
    } else if ends_with(s, seq![66u8]) {
        Some((1, 1))
    } else {
        None
    }
}

pub open spec fn ends_with(s: Seq<u8>, suffix: Seq<u8>) -> bool {
    suffix.len() <= s.len() && s.skip(s.len() - suffix.len()) == suffix
}

/// Bytes denoted by a memory amount of at most 18 digits: the number times
/// the unit, rounded down; None when that does not fit in 64 bits.
pub open spec fn memory_bytes(s: Seq<u8>) -> Option<nat> {
    match unit_of(s) {
        Some((unit, len)) => match scan(s.take(s.len() - len)) {
            Some((value, scale, _, digits)) => {
                if 0 < digits <= 18 && value * unit / pow10(scale) <= u64::MAX {
                    Some(value * unit / pow10(scale))
                } else {
                    None
                }
            },
            None => None,
        },
        None => None,
    }
}

fn ends_with_bytes(s: &[u8], suffix: &[u8]) -> (r: bool)
    ensures
        r == ends_with(s@, suffix@),
{
    if suffix.len() > s.len() {
        return false;
    }
    let n = s.len();
    let off = n - suffix.len();
    let mut i: usize = 0;
    while i < suffix.len()
        invariant
            n == s@.len(),
            off + suffix@.len() == n,
            i <= suffix@.len(),
            forall|j: int| 0 <= j < i ==> s@[off + j] == suffix@[j],
        decreases suffix@.len() - i,
    {
        if s[off + i] != suffix[i] {
            assert(s@.skip(off as int)[i as int] != suffix@[i as int]);
            return false;
        }
        i = i + 1;
    }
    assert(s@.skip(off as int) =~= suffix@);
    true
}

fn unit(s: &[u8]) -> (r: Option<(u64, usize)>)
    ensures
        match unit_of(s@) {
            Some((u, l)) => r matches Some((a, b)) && a == u && b == l,
            None => r is None,
        },
{
    let gib: [u8; 3] = [71, 105, 66];
    let gb: [u8; 2] = [71, 66];
    let mib: [u8; 3] = [77, 105, 66];
    let mb: [u8; 2] = [77, 66];
    let kib: [u8; 3] = [75, 105, 66];
    let lower_kb: [u8; 2] = [107, 66];
    let kb: [u8; 2] = [75, 66];
    let b: [u8; 1] = [66];
    assert(gib@ =~= seq![71u8, 105, 66]);
    assert(gb@ =~= seq![71u8, 66]);
    assert(mib@ =~= seq![77u8, 105, 66]);
    assert(mb@ =~= seq![77u8, 66]);
    assert(kib@ =~= seq![75u8, 105, 66]);
    assert(lower_kb@ =~= seq![107u8, 66]);
    assert(kb@ =~= seq![75u8, 66]);
    assert(b@ =~= seq![66u8]);
    if ends_with_bytes(s, &gib) {
        Some((1073741824, 3))
    } else if ends_with_bytes(s, &gb) {
        Some((1073741824, 2))
    } else if ends_with_bytes(s, &mib) {
        Some((1048576, 3))
    } else if ends_with_bytes(s, &mb) {
        Some((1048576, 2))
    } else if ends_with_bytes(s, &kib) {
        Some((1024, 3))
    } else if ends_with_bytes(s, &lower_kb) || ends_with_bytes(s, &kb) {
        Some((1024, 2))
    } else if ends_with_bytes(s, &b) {
        Some((1, 1))
    } else {
        None
    }
}

fn pow10_exec(n: u32) -> (r: u128)
    requires
        n <= 18,
    ensures
        r == pow10(n as nat),
{
    let mut p: u128 = 1;
    let mut i: u32 = 0;
    while i < n
        invariant
            i <= n <= 18,
            p == pow10(i as nat),
            p <= 1_000_000_000_000_000_000,
        decreases n - i,
    {
        proof {
            reveal_with_fuel(pow10, 19);
            lemma_pow10_bound(i as nat);
        }
        p = p * 10;
        i = i + 1;
    }
    p
}

proof fn lemma_pow10_bound(n: nat)
    requires
        n < 18,
    ensures
        pow10(n) * 10 <= 1_000_000_000_000_000_000,
        pow10(n + 1) == pow10(n) * 10,
    decreases n,
{
    reveal_with_fuel(pow10, 19);
    if n > 0 {
        lemma_pow10_bound((n - 1) as nat);
    }
}

proof fn lemma_pow10_positive(n: nat)
    ensures
        pow10(n) >= 1,
    decreases n,
{
    if n > 0 {
        lemma_pow10_positive((n - 1) as nat);
    }
}

/// The decimal number of at most 18 digits that `s` holds: its digits read
/// as one number and the count of digits after the point.
pub open spec fn decimal(s: Seq<u8>) -> Option<(nat, nat)> {
    match scan(s) {
        Some((value, scale, _, digits)) => {
            if 0 < digits <= 18 {
                Some((value, scale))
            } else {
                None
            }
        },
        None => None,
    }
}

/// Reads the decimal number in `s[..end]`.
fn read_decimal(s: &[u8], end: usize) -> (r: Option<(u64, u32)>)
    requires
        end <= s@.len(),
    ensures
        match decimal(s@.take(end as int)) {
            Some((v, sc)) => r matches Some((a, b)) && a == v && b == sc && b <= 18 && a
                < 1_000_000_000_000_000_000,
            None => r is None,
        },
{
    let ghost body = s@.take(end as int);
    let mut value: u64 = 0;
    let mut scale: u32 = 0;
    let mut dot = false;
    let mut digits: u32 = 0;
    let mut i: usize = 0;
    while i < end
        invariant
            end <= s@.len(),
            body == s@.take(end as int),
            i <= end,
            digits <= 18,
            scale <= digits,
            value < pow10(digits as nat),
            scan(body.take(i as int)) == Some((value as nat, scale as nat, dot, digits as nat)),
        decreases end - i,
    {
        proof {
            assert(body.take(i + 1).drop_last() =~= body.take(i as int));
            assert(body.take(i + 1).last() == s@[i as int]);
        }
        let c = s[i];
        if 48 <= c && c <= 57 {
            if digits == 18 {
                proof {
                    lemma_scan_digits_grow(body, (i + 1) as int, end as int);
                    assert(body.take(end as int) =~= body);
                }
                return None;
            }
            proof {
                lemma_pow10_bound(digits as nat);
                assert(value * 10 + (c - 48) < pow10(digits as nat) * 10) by (nonlinear_arith)
                    requires
                        value < pow10(digits as nat),
                        c - 48 < 10,
                ;
            }
            value = value * 10 + (c - 48) as u64;
            digits = digits + 1;
            if dot {
                scale = scale + 1;
            }
        } else if c == 46 && !dot {
            dot = true;
        } else {
            proof {
                lemma_scan_fails(body, (i + 1) as int, end as int);
                assert(body.take(end as int) =~= body);
            }
            return None;
        }
        i = i + 1;
    }
    assert(body.take(end as int) =~= body);
    if digits == 0 {
        return None;
    }
    proof {
        reveal_with_fuel(pow10, 19);
        assert(pow10(18) == 1_000_000_000_000_000_000);
        lemma_pow10_mono(digits as nat, 18);
    }
    Some((value, scale))
}

/// Bytes of a memory amount such as `1.5GiB`, `256MB`, `12kB` or `900B`;
/// None for anything else.
pub fn parse_memory(s: &[u8]) -> (r: Option<u64>)
    ensures
        match memory_bytes(s@) {
            Some(b) => r == Some(b as u64),
            None => r is None,
        },
{
    let (unit, len) = match unit(s) {
        Some(u) => u,
        None => return None,
    };
    let end = s.len() - len;
    let (value, scale) = match read_decimal(s, end) {
        Some(d) => d,
        None => return None,
    };
    let p = pow10_exec(scale);
    proof {
        lemma_pow10_positive(scale as nat);
        assert((value as nat) * (unit as nat) <= 1_000_000_000_000_000_000 * 1073741824) by (nonlinear_arith)
            requires
                value < 1_000_000_000_000_000_000nat,
                unit <= 1073741824,
        ;
    }
    let bytes = (value as u128) * (unit as u128) / p;
    if bytes > u64::MAX as u128 {
        return None;
    }
    Some(bytes as u64)
}

/// Hundredths of a percent denoted by `N%` or `N.F%`, rounded down; None
/// when that does not fit in 64 bits.
pub open spec fn percent_hundredths(s: Seq<u8>) -> Option<nat> {
    if s.len() > 0 && s.last() == 37 {
        match decimal(s.drop_last()) {
            Some((v, sc)) => if v * 100 / pow10(sc) <= u64::MAX {
                Some(v * 100 / pow10(sc))
            } else {
                None
            },
            None => None,
        }
    } else {
        None
    }
}

/// Reads a CPU share such as `12.5%` as hundredths of a percent.
pub fn parse_percent(s: &[u8]) -> (r: Option<u64>)
    ensures
        match percent_hundredths(s@) {
            Some(h) => r == Some(h as u64),
            None => r is None,
        },
{
    if s.len() == 0 || s[s.len() - 1] != 37 {
        return None;
    }
    let end = s.len() - 1;
    assert(s@.take(end as int) =~= s@.drop_last());
    let (value, scale) = match read_decimal(s, end) {
        Some(d) => d,
        None => return None,
    };
    let p = pow10_exec(scale);
    proof {
        lemma_pow10_positive(scale as nat);
        assert((value as nat) * 100 <= 100_000_000_000_000_000_000nat) by (nonlinear_arith)
            requires
                value < 1_000_000_000_000_000_000nat,
        ;
        assert((value as nat) * 100 / pow10(scale as nat) <= (value as nat) * 100) by (nonlinear_arith)
            requires
                pow10(scale as nat) >= 1,
        ;
    }
    let h = (value as u128) * 100 / p;
    if h > u64::MAX as u128 {
        return None;
    }
    Some(h as u64)
}

/// A count of at most nine digits, such as a number of processes.
pub open spec fn count_of(s: Seq<u8>) -> Option<nat> {
    match scan(s) {
        Some((v, _, dot, digits)) => {
            if !dot && 0 < digits <= 9 {
                Some(v)
            } else {
                None
            }
        },
        None => None,
    }
}

/// Reads a process count.
pub fn parse_count(s: &[u8]) -> (r: Option<u32>)
    ensures
        match count_of(s@) {
            Some(n) => r == Some(n as u32),
            None => r is None,
        },
{
    if s.len() > 9 {
        proof {
            lemma_scan_length(s@);
        }
        return None;
    }
    let mut i: usize = 0;
    while i < s.len()
        invariant
            i <= s@.len(),
            forall|j: int| 0 <= j < i ==> s@[j] != 46,
        decreases s@.len() - i,
    {
        if s[i] == 46 {
            proof {
                lemma_scan_dot(s@, i as int);
            }
            return None;
        }
        i = i + 1;
    }
    assert(s@.take(s@.len() as int) =~= s@);
    match read_decimal(s, s.len()) {
        Some((v, _)) => {
            proof {
                lemma_scan_no_dot(s@);
                lemma_scan_bound(s@);
                lemma_scan_length(s@);
                reveal_with_fuel(pow10, 10);
                assert(pow10(9) == 1_000_000_000);
                match scan(s@) {
                    Some((_, _, _, digits)) => {
                        lemma_pow10_mono(digits, 9);
                    },
                    None => {},
                }
            }
            Some(v as u32)
        },
        None => None,
    }
}

/// The used part of a `used / limit` memory figure.
pub open spec fn used_part(s: Seq<u8>) -> Seq<u8> {
    match first_occurrence_from(s, seq![32u8, 47, 32], 0) {
        Some(i) => s.take(i),
        None => s,
    }
}

/// Usage figures of a container.
#[derive(Clone, Copy, Debug)]
pub struct ResourceUsage {
    pub memory_bytes: u64,
    /// CPU share in hundredths of a percent.
    pub cpu_hundredths: u64,
    pub disk_mb: u64,
    pub pids: u32,
}

fn prefix(s: &[u8], end: usize) -> (r: Vec<u8>)
    requires
        end <= s@.len(),
    ensures
        r@ == s@.take(end as int),
{
    let mut v: Vec<u8> = Vec::new();
    let mut i: usize = 0;
    while i < end
        invariant
            end <= s@.len(),
            i <= end,
            v@ == s@.take(i as int),
        decreases end - i,
    {
        v.push(s[i]);
        assert(v@ =~= s@.take(i + 1));
        i = i + 1;
    }
    v
}

/// Reads the runtime's figures: CPU share (`12.5%`), memory (`used / limit`)
/// and process count. A figure that cannot be read keeps its value in
/// `last`, the last known usage.
pub fn usage_from_stats(
    last: &ResourceUsage,
    cpu: &[u8],
    memory: &[u8],
    pids: &[u8],
    disk_mb: u64,
) -> (r: ResourceUsage)
    ensures
        r.cpu_hundredths == match percent_hundredths(cpu@) {
            Some(h) => h as u64,
            None => last.cpu_hundredths,
        },
        r.memory_bytes == match memory_bytes(used_part(memory@)) {
            Some(b) => b as u64,
            None => last.memory_bytes,
        },
        r.pids == match count_of(pids@) {
            Some(n) => n as u32,
            None => last.pids,
        },
        r.disk_mb == disk_mb,
{
    let sep: [u8; 3] = [32, 47, 32];
    assert(sep@ =~= seq![32u8, 47, 32]);
    let used = match find_bytes(memory, &sep) {
        Some(i) => prefix(memory, i),
        None => prefix(memory, memory.len()),
    };
    assert(memory@.take(memory@.len() as int) =~= memory@);
    let memory_bytes = match parse_memory(used.as_slice()) {
        Some(b) => b,
        None => last.memory_bytes,
    };
    let cpu_hundredths = match parse_percent(cpu) {
        Some(h) => h,
        None => last.cpu_hundredths,
    };
    let pids = match parse_count(pids) {
        Some(n) => n,
        None => last.pids,
    };
    ResourceUsage { memory_bytes, cpu_hundredths, disk_mb, pids }
}

proof fn lemma_scan_length(s: Seq<u8>)
    ensures
        match scan(s) {
            Some((_, _, dot, digits)) => digits + (if dot { 1int } else { 0 }) == s.len(),
            None => true,
        },
    decreases s.len(),
{
    if s.len() > 0 {
        lemma_scan_length(s.drop_last());
    }
}

proof fn lemma_scan_no_dot(s: Seq<u8>)
    requires
        forall|j: int| 0 <= j < s.len() ==> s[j] != 46,
    ensures
        match scan(s) {
            Some((_, sc, dot, _)) => !dot && sc == 0,
            None => true,
        },
    decreases s.len(),
{
    if s.len() > 0 {
        lemma_scan_no_dot(s.drop_last());
    }
}

proof fn lemma_scan_dot(s: Seq<u8>, i: int)
    requires
        0 <= i < s.len(),
        s[i] == 46,
    ensures
        match scan(s) {
            Some((_, _, dot, _)) => dot,
            None => true,
        },
    decreases s.len(),
{
    if i < s.len() - 1 {
        lemma_scan_dot(s.drop_last(), i);
    }
}

proof fn lemma_scan_bound(s: Seq<u8>)
    ensures
        match scan(s) {
            Some((v, _, _, digits)) => v < pow10(digits),
            None => true,
        },
    decreases s.len(),
{
    if s.len() > 0 {
        lemma_scan_bound(s.drop_last());
        match scan(s.drop_last()) {
            Some((v, _, _, digits)) => {
                let c = s.last();
                if 48 <= c <= 57 {
                    assert(v * 10 + (c - 48) < pow10(digits) * 10) by (nonlinear_arith)
                        requires
                            v < pow10(digits),
                            c - 48 < 10,
                    ;
                }
            },
            None => {},
        }
    }
}

proof fn lemma_pow10_mono(a: nat, b: nat)
    requires
        a <= b,
    ensures
        pow10(a) <= pow10(b),
    decreases b,
{
    if a < b {
        lemma_pow10_mono(a, (b - 1) as nat);
        lemma_pow10_positive((b - 1) as nat);
    }
}

/// Once the reading fails, it stays failed.
proof fn lemma_scan_fails(s: Seq<u8>, k: int, end: int)
    requires
        0 <= k <= end <= s.len(),
        scan(s.take(k)) is None,
    ensures
        scan(s.take(end)) is None,
    decreases end - k,
{
    if k < end {
        assert(s.take(k + 1).drop_last() =~= s.take(k));
        lemma_scan_fails(s, k + 1, end);
    }
}

/// The digit count never goes down as reading proceeds; past 18 digits the
/// amount is refused.
proof fn lemma_scan_digits_grow(s: Seq<u8>, k: int, end: int)
    requires
        0 <= k <= end <= s.len(),
        match scan(s.take(k)) {
            Some((_, _, _, n)) => n > 18,
            None => true,
        },
    ensures
        match scan(s.take(end)) {
            Some((_, _, _, n)) => n > 18,
            None => true,
        },
    decreases end - k,
{
    if k < end {
        assert(s.take(k + 1).drop_last() =~= s.take(k));
        lemma_scan_digits_grow(s, k + 1, end);
    }
}

} // verus!
