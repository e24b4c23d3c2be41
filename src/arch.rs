use vstd::prelude::*;

verus! {

/// The instruction-set level that a build of the package targets.
#[derive(Clone, Copy, Debug, PartialEq, Eq, Structural)]
pub enum MicroarchTag {
    /// Plain x86-64.
    Baseline,
    /// x86-64-v3: AVX2, BMI1, BMI2 and FMA.
    V3,
}

pub open spec fn newline() -> u8 {
    10u8
}

pub open spec fn flags_word() -> Seq<u8> {
    seq![102u8, 108u8, 97u8, 103u8, 115u8]
}

pub open spec fn avx2_word() -> Seq<u8> {
    seq![97u8, 118u8, 120u8, 50u8]
}

pub open spec fn bmi1_word() -> Seq<u8> {
    seq![98u8, 109u8, 105u8, 49u8]
}

pub open spec fn bmi2_word() -> Seq<u8> {
    seq![98u8, 109u8, 105u8, 50u8]
}

pub open spec fn fma_word() -> Seq<u8> {
    seq![102u8, 109u8, 97u8]
}

/// `p` occurs in `s` starting at position `k`.
pub open spec fn occurs_at(s: Seq<u8>, k: int, p: Seq<u8>) -> bool {
    0 <= k && k + p.len() <= s.len() && s.subrange(k, k + p.len()) == p
}

/// The byte may stand just before a flag word: a space, a tab or `:`.
pub open spec fn leads_flag(b: u8) -> bool {
    b == 32u8 || b == 9u8 || b == 58u8
}

/// The byte may stand just after a flag word: a space, a tab or a carriage
/// return.
pub open spec fn ends_flag(b: u8) -> bool {
    b == 32u8 || b == 9u8 || b == 13u8
}

/// `p` stands at position `k` of the line `lo .. hi` as a whole flag word:
/// a separator comes before it, and a separator or the end of the line
/// after it.
pub open spec fn flag_word_at(s: Seq<u8>, lo: int, hi: int, k: int, p: Seq<u8>) -> bool {
    &&& lo < k
    &&& k + p.len() <= hi <= s.len()
    &&& occurs_at(s, k, p)
    &&& leads_flag(s[k - 1])
    &&& (k + p.len() == hi || ends_flag(s[k + p.len()]))
}

/// The line `lo .. hi` lists `p` as one of its flag words.
pub open spec fn lists_flag(s: Seq<u8>, lo: int, hi: int, p: Seq<u8>) -> bool {
    exists|k: int| #[trigger] flag_word_at(s, lo, hi, k, p)
}

/// A line of `s` starts at `i`.
pub open spec fn line_start(s: Seq<u8>, i: int) -> bool {
    0 <= i < s.len() && (i == 0 || s[i - 1] == newline())
}

/// `e` ends the line that starts at `i`: the first newline at or after `i`,
/// or the end of the text.
pub open spec fn line_end(s: Seq<u8>, i: int, e: int) -> bool {
    &&& i <= e <= s.len()
    &&& forall|k: int| i <= k < e ==> s[k] != newline()
    &&& (e == s.len() || s[e] == newline())
}

/// A line that starts with `flags` starts at `i`.
pub open spec fn flags_line_at(s: Seq<u8>, i: int) -> bool {
    line_start(s, i) && occurs_at(s, i, flags_word())
}

/// The line `i .. e` lists every feature of the v3 level as a flag.
pub open spec fn names_v3_features(s: Seq<u8>, i: int, e: int) -> bool {
    &&& lists_flag(s, i, e, avx2_word())
    &&& lists_flag(s, i, e, bmi1_word())
    &&& lists_flag(s, i, e, bmi2_word())
    &&& lists_flag(s, i, e, fma_word())
}

/// The first line of the CPU report that starts with `flags` lists AVX2,
/// BMI1, BMI2 and FMA as flags.
pub open spec fn reports_v3(s: Seq<u8>) -> bool {
    exists|i: int, e: int|
        #[trigger] flags_line_at(s, i) && #[trigger] line_end(s, i, e) && (forall|j: int|
            0 <= j < i ==> !flags_line_at(s, j)) && names_v3_features(s, i, e)
}

/// The level that a CPU report shows.
pub open spec fn tag_of_report(s: Seq<u8>) -> MicroarchTag {
    if reports_v3(s) {
        MicroarchTag::V3
    } else {
        MicroarchTag::Baseline
    }
}

/// Whether `p` occurs in `s` starting at `k`.
fn bytes_occur_at(s: &[u8], k: usize, p: &[u8]) -> (r: bool)
    ensures
        r == occurs_at(s@, k as int, p@),
{
    if k > s.len() || p.len() > s.len() - k {
        return false;
    }
    let mut j: usize = 0;
    while j < p.len()
        invariant
            j <= p.len(),
            k + p.len() <= s.len(),
            s@.subrange(k as int, k + j) =~= p@.subrange(0, j as int),
        decreases p.len() - j,
    {
        if s[k + j] != p[j] {
            assert(s@.subrange(k as int, k + p.len())[j as int] != p@[j as int]);
            return false;
        }
        j = j + 1;
        assert(s@.subrange(k as int, k + j) =~= p@.subrange(0, j as int));
    }
    assert(p@.subrange(0, p.len() as int) =~= p@);
    true
}

/// Whether the line `lo .. hi` of `s` lists `p` as a whole flag word.
fn line_lists_flag(s: &[u8], lo: usize, hi: usize, p: &[u8]) -> (r: bool)
    requires
        lo <= hi <= s.len(),
    ensures
        r == lists_flag(s@, lo as int, hi as int, p@),
{
    if p.len() >= hi - lo {
        return false;
    }
    let last: usize = hi - p.len();
    let mut k: usize = lo + 1;
    while k <= last
        invariant
            lo < k,
            last + p.len() == hi,
            hi <= s.len(),
            forall|m: int| lo < m < k ==> !flag_word_at(s@, lo as int, hi as int, m, p@),
        decreases last + 1 - k,
    {
        let before = s[k - 1];
        let after_ok = k + p.len() == hi || {
            let b = s[k + p.len()];
            b == 32u8 || b == 9u8 || b == 13u8
        };
        if (before == 32u8 || before == 9u8 || before == 58u8) && after_ok && bytes_occur_at(s, k, p)
        {
            assert(flag_word_at(s@, lo as int, hi as int, k as int, p@));
            return true;
        }
        if k == last {
            return false;
        }
        k = k + 1;
    }
    false
}

/// The end of the line that starts at `i`.
fn find_line_end(s: &[u8], i: usize) -> (e: usize)
    requires
        i <= s.len(),
    ensures
        line_end(s@, i as int, e as int),
{
    let mut e: usize = i;
    while e < s.len() && s[e] != 10u8
        invariant
            i <= e <= s.len(),
            forall|k: int| i <= k < e ==> s@[k] != newline(),
        decreases s.len() - e,
    {
        e = e + 1;
    }
    e
}

/// The level of the CPU described by `report`, the text of the kernel's CPU
/// report, or `None` where it could not be read. The first line that starts
/// with `flags` decides: it gives `V3` when it names AVX2, BMI1, BMI2 and
/// FMA as flags, each a whole word; every other report gives `Baseline`.
pub fn detect_arch(report: Option<&[u8]>) -> (r: MicroarchTag)
    ensures
        report is None ==> r == MicroarchTag::Baseline,
        report is Some ==> r == tag_of_report(report->0@),
{
    match report {
        Some(s) => scan_report(s),
        None => MicroarchTag::Baseline,
    }
}

/// The level that the CPU report `s` shows.
fn scan_report(s: &[u8]) -> (r: MicroarchTag)
    ensures
        r == tag_of_report(s@),
{
    let flags = [102u8, 108u8, 97u8, 103u8, 115u8];
    let avx2 = [97u8, 118u8, 120u8, 50u8];
    let bmi1 = [98u8, 109u8, 105u8, 49u8];
    let bmi2 = [98u8, 109u8, 105u8, 50u8];
    let fma = [102u8, 109u8, 97u8];
    assert(flags@ =~= flags_word());
    assert(avx2@ =~= avx2_word());
    assert(bmi1@ =~= bmi1_word());
    assert(bmi2@ =~= bmi2_word());
    assert(fma@ =~= fma_word());
    let mut i: usize = 0;
    while i < s.len()
        invariant
            i <= s.len(),
            i == s.len() || line_start(s@, i as int),
            forall|j: int| 0 <= j < i ==> !flags_line_at(s@, j),
            flags@ == flags_word(),
            avx2@ == avx2_word(),
            bmi1@ == bmi1_word(),
            bmi2@ == bmi2_word(),
            fma@ == fma_word(),
        decreases s.len() - i,
    {
        let e = find_line_end(s, i);
        if bytes_occur_at(s, i, flags.as_slice()) {
            assert(flags_line_at(s@, i as int));
            let v3 = line_lists_flag(s, i, e, avx2.as_slice())
                && line_lists_flag(s, i, e, bmi1.as_slice())
                && line_lists_flag(s, i, e, bmi2.as_slice())
                && line_lists_flag(s, i, e, fma.as_slice());
            if v3 {
                assert(names_v3_features(s@, i as int, e as int));
                assert(reports_v3(s@));
                return MicroarchTag::V3;
            }
            proof {
                assert(!names_v3_features(s@, i as int, e as int));
                assert forall|a: int, b: int|
                    flags_line_at(s@, a) && line_end(s@, a, b) && (forall|j: int|
                        0 <= j < a ==> !flags_line_at(s@, j)) implies !names_v3_features(
                    s@,
                    a,
                    b,
                ) by {
                    assert(a == i);
                    if b < e {
                        assert(s@[b] != newline());
                    } else if e < b {
                        assert(s@[e as int] != newline());
                    }
                }
            }
            return MicroarchTag::Baseline;
        }
        assert forall|j: int| 0 <= j < e + 1 && j < s.len() implies !flags_line_at(s@, j) by {
            if i < j <= e {
                assert(s@[j - 1] != newline());
            }
        }
        if e == s.len() {
            i = e;
        } else {
            i = e + 1;
        }
    }
    proof {
        assert forall|a: int, b: int|
            flags_line_at(s@, a) && line_end(s@, a, b) implies !(forall|j: int|
            0 <= j < a ==> !flags_line_at(s@, j)) by {
            assert(!flags_line_at(s@, a));
        }
    }
    MicroarchTag::Baseline
}

} // verus!
