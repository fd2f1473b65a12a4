//! The sidecar policy: which entries are hashing targets, how a sidecar file
//! is named, and which algorithms an entry still needs.

use vstd::prelude::*;

use crate::digest::Algo;

verus! {

/// The file-name extension (and log label) of each algorithm.
pub open spec fn algo_ext_spec(alg: Algo) -> Seq<u8> {
    match alg {
        Algo::Md5 => seq![109u8, 100u8, 53u8],
        Algo::Sha1 => seq![115u8, 104u8, 97u8, 49u8],
        Algo::Sha256 => seq![115u8, 104u8, 97u8, 50u8, 53u8, 54u8],
        Algo::Sha512 => seq![115u8, 104u8, 97u8, 53u8, 49u8, 50u8],
    }
}

/// The extension as bytes, for deriving sidecar names.
pub fn algo_ext(alg: Algo) -> (r: Vec<u8>)
    ensures
        r@ == algo_ext_spec(alg),
{
    match alg {
        Algo::Md5 => {
            let v = vec![109u8, 100u8, 53u8];
            proof {
                assert(v@ =~= algo_ext_spec(Algo::Md5));
            }
            v
        },
        Algo::Sha1 => {
            let v = vec![115u8, 104u8, 97u8, 49u8];
            proof {
                assert(v@ =~= algo_ext_spec(Algo::Sha1));
            }
            v
        },
        Algo::Sha256 => {
            let v = vec![115u8, 104u8, 97u8, 50u8, 53u8, 54u8];
            proof {
                assert(v@ =~= algo_ext_spec(Algo::Sha256));
            }
            v
        },
        Algo::Sha512 => {
            let v = vec![115u8, 104u8, 97u8, 53u8, 49u8, 50u8];
            proof {
                assert(v@ =~= algo_ext_spec(Algo::Sha512));
            }
            v
        },
    }
}

/// The algorithm's name as text: the same word as the extension, used as the
/// label in verbose notices.
pub open spec fn algo_label_spec(alg: Algo) -> Seq<char> {
    match alg {
        Algo::Md5 => "md5"@,
        Algo::Sha1 => "sha1"@,
        Algo::Sha256 => "sha256"@,
        Algo::Sha512 => "sha512"@,
    }
}

/// The algorithm's log label.
pub fn algo_label(alg: Algo) -> (r: &'static str)
    ensures
        r@ == algo_label_spec(alg),
{
    match alg {
        Algo::Md5 => "md5",
        Algo::Sha1 => "sha1",
        Algo::Sha256 => "sha256",
        Algo::Sha512 => "sha512",
    }
}

/// Whether one byte sequence ends with another.
pub open spec fn ends_with(s: Seq<u8>, suffix: Seq<u8>) -> bool {
    suffix.len() <= s.len() && s.subrange(s.len() - suffix.len(), s.len() as int) == suffix
}

/// Whether the slice ends with the given suffix.
pub fn ends_with_bytes(s: &[u8], suffix: &[u8]) -> (r: bool)
    ensures
        r == ends_with(s@, suffix@),
{
    let n = s.len();
    let m = suffix.len();
    if m > n {
        return false;
    }
    let mut j: usize = 0;
    while j < m
        invariant
            m <= n,
            n == s@.len(),
            m == suffix@.len(),
            j <= m,
            forall|k: int| 0 <= k < j ==> s@[n - m + k] == suffix@[k],
        decreases m - j,
    {
        if s[n - m + j] != suffix[j] {
            proof {
                let tail = s@.subrange(n - m, n as int);
                assert(tail[j as int] == s@[n - m + j]);
            }
            return false;
        }
        j += 1;
    }
    proof {
        assert(s@.subrange(n - m, n as int) =~= suffix@);
    }
    true
}

/// A name that already carries one of the four recognized algorithm
/// extensions: such a file is a sidecar itself, never a hashing target.
pub open spec fn is_sidecar_name_spec(name: Seq<u8>) -> bool {
    ||| ends_with(name, algo_ext_spec(Algo::Md5))
    ||| ends_with(name, algo_ext_spec(Algo::Sha1))
    ||| ends_with(name, algo_ext_spec(Algo::Sha256))
    ||| ends_with(name, algo_ext_spec(Algo::Sha512))
}

/// Whether the file name already ends in a recognized algorithm extension.
pub fn is_sidecar_name(name: &[u8]) -> (r: bool)
    ensures
        r == is_sidecar_name_spec(name@),
{
    let md5 = algo_ext(Algo::Md5);
    let sha1 = algo_ext(Algo::Sha1);
    let sha256 = algo_ext(Algo::Sha256);
    let sha512 = algo_ext(Algo::Sha512);
    ends_with_bytes(name, md5.as_slice()) || ends_with_bytes(name, sha1.as_slice())
        || ends_with_bytes(name, sha256.as_slice()) || ends_with_bytes(
        name,
        sha512.as_slice(),
    )
}

/// The policy's exclusion step: only a regular file whose name does not
/// already end in a recognized algorithm extension is a hashing target.
pub open spec fn is_target_spec(name: Seq<u8>, is_regular_file: bool) -> bool {
    is_regular_file && !is_sidecar_name_spec(name)
}

/// Whether an entry is a hashing target.
pub fn is_target(name: &[u8], is_regular_file: bool) -> (r: bool)
    ensures
        r == is_target_spec(name@, is_regular_file),
{
    is_regular_file && !is_sidecar_name(name)
}

/// Whether a file name carries an extension in the sense of the naming rule:
/// a dot somewhere after the first byte (a leading dot alone marks a hidden
/// file, not an extension).
pub open spec fn has_extension_spec(name: Seq<u8>) -> bool {
    exists|i: int| 1 <= i < name.len() && #[trigger] name[i] == 46u8
}

/// Whether the file name carries an extension.
pub fn has_extension(name: &[u8]) -> (r: bool)
    ensures
        r == has_extension_spec(name@),
{
    let n = name.len();
    if n < 2 {
        return false;
    }
    let mut i: usize = 1;
    while i < n
        invariant
            1 <= i <= n,
            n == name@.len(),
            forall|k: int| 1 <= k < i ==> #[trigger] name@[k] != 46u8,
        decreases n - i,
    {
        if name[i] == 46u8 {
            return true;
        }
        i += 1;
    }
    false
}

/// The derived sidecar name: the whole file name with a dot and the algorithm
/// extension appended.
pub open spec fn sidecar_name_spec(name: Seq<u8>, alg: Algo) -> Seq<u8> {
    name + seq![46u8] + algo_ext_spec(alg)
}

/// Derive the sidecar file name for an entry and an algorithm. An entry whose
/// name has no extension takes no sidecar under the naming rule, and the
/// derivation refuses it rather than fail later.
pub fn sidecar_name(name: &[u8], alg: Algo) -> (r: Option<Vec<u8>>)
    ensures
        match r {
            Some(v) => has_extension_spec(name@) && v@ == sidecar_name_spec(name@, alg),
            None => !has_extension_spec(name@),
        },
{
    if !has_extension(name) {
        return None;
    }
    let mut v: Vec<u8> = Vec::new();
    let n = name.len();
    let mut i: usize = 0;
    while i < n
        invariant
            i <= n,
            n == name@.len(),
            v@ == name@.subrange(0, i as int),
        decreases n - i,
    {
        v.push(name[i]);
        proof {
            assert(v@ =~= name@.subrange(0, i + 1));
        }
        i += 1;
    }
    proof {
        assert(name@.subrange(0, n as int) =~= name@);
    }
    v.push(46u8);
    let ext = algo_ext(alg);
    let m = ext.len();
    let mut j: usize = 0;
    while j < m
        invariant
            j <= m,
            m == ext@.len(),
            v@ == name@ + seq![46u8] + ext@.subrange(0, j as int),
        decreases m - j,
    {
        v.push(ext[j]);
        proof {
            assert(v@ =~= name@ + seq![46u8] + ext@.subrange(0, j + 1));
        }
        j += 1;
    }
    proof {
        assert(ext@.subrange(0, m as int) =~= ext@);
    }
    Some(v)
}

/// Which of the four sidecars already exist beside a file, as observed on
/// disk at evaluation time. Mere existence is the completion signal; content
/// is never re-checked.
#[derive(Clone, Copy, PartialEq, Eq, Structural, Debug)]
pub struct SidecarPresence {
    pub md5: bool,
    pub sha1: bool,
    pub sha256: bool,
    pub sha512: bool,
}

/// Whether the sidecar for an algorithm is present.
pub open spec fn present_spec(p: SidecarPresence, alg: Algo) -> bool {
    match alg {
        Algo::Md5 => p.md5,
        Algo::Sha1 => p.sha1,
        Algo::Sha256 => p.sha256,
        Algo::Sha512 => p.sha512,
    }
}

/// The canonical algorithm order: the order the four per-file checks are
/// evaluated in.
pub open spec fn algos_spec() -> Seq<Algo> {
    seq![Algo::Md5, Algo::Sha1, Algo::Sha256, Algo::Sha512]
}

/// The four algorithms, in canonical order.
pub fn algorithms() -> (r: Vec<Algo>)
    ensures
        r@ == algos_spec(),
{
    let v = vec![Algo::Md5, Algo::Sha1, Algo::Sha256, Algo::Sha512];
    proof {
        assert(v@ =~= algos_spec());
    }
    v
}

/// The algorithms whose sidecars are absent, in canonical order.
pub open spec fn missing_spec(p: SidecarPresence) -> Seq<Algo> {
    (if p.md5 {
        Seq::<Algo>::empty()
    } else {
        seq![Algo::Md5]
    }) + (if p.sha1 {
        Seq::<Algo>::empty()
    } else {
        seq![Algo::Sha1]
    }) + (if p.sha256 {
        Seq::<Algo>::empty()
    } else {
        seq![Algo::Sha256]
    }) + (if p.sha512 {
        Seq::<Algo>::empty()
    } else {
        seq![Algo::Sha512]
    })
}

/// The set of algorithms a file still needs, in canonical order: exactly the
/// ones whose sidecar is absent.
pub fn missing_algorithms(p: &SidecarPresence) -> (r: Vec<Algo>)
    ensures
        r@ == missing_spec(*p),
{
    let mut r: Vec<Algo> = Vec::new();
    if !p.md5 {
        r.push(Algo::Md5);
    }
    if !p.sha1 {
        r.push(Algo::Sha1);
    }
    if !p.sha256 {
        r.push(Algo::Sha256);
    }
    if !p.sha512 {
        r.push(Algo::Sha512);
    }
    proof {
        assert(r@ =~= missing_spec(*p));
    }
    r
}

/// The whole per-entry decision: the computations an entry requires. A
/// non-target entry requires none; a target requires exactly its missing
/// algorithms, in canonical order.
pub open spec fn required_work_spec(name: Seq<u8>, is_regular_file: bool, p: SidecarPresence) -> Seq<
    Algo,
> {
    if is_target_spec(name, is_regular_file) {
        missing_spec(p)
    } else {
        Seq::<Algo>::empty()
    }
}

/// Decide what an entry requires, from its name, its file type, and the
/// observed sidecar presence.
pub fn required_work(name: &[u8], is_regular_file: bool, p: &SidecarPresence) -> (r: Vec<Algo>)
    ensures
        r@ == required_work_spec(name@, is_regular_file, *p),
{
    if is_target(name, is_regular_file) {
        missing_algorithms(p)
    } else {
        Vec::new()
    }
}

/// An algorithm's computation is required exactly when its sidecar is absent:
/// a pre-existing sidecar is left alone, each absent one is produced.
pub proof fn lemma_missing_iff_absent(p: SidecarPresence, alg: Algo)
    ensures
        missing_spec(p).contains(alg) <==> !present_spec(p, alg),
{
    let m = missing_spec(p);
    if !present_spec(p, alg) {
        match alg {
            Algo::Md5 => {
                assert(m[0] == Algo::Md5);
            },
            Algo::Sha1 => {
                let i = if p.md5 {
                    0int
                } else {
                    1int
                };
                assert(m[i] == Algo::Sha1);
            },
            Algo::Sha256 => {
                let i = (if p.md5 {
                    0int
                } else {
                    1int
                }) + (if p.sha1 {
                    0int
                } else {
                    1int
                });
                assert(m[i] == Algo::Sha256);
            },
            Algo::Sha512 => {
                assert(m[m.len() - 1] == Algo::Sha512);
            },
        }
    }
    if present_spec(p, alg) {
        assert forall|i: int| 0 <= i < m.len() implies m[i] != alg by {}
    }
}

/// Idempotence at the decision level: when every sidecar is present, as after
/// a completed run over an unchanged tree, a rerun plans no computation.
pub proof fn lemma_complete_entry_needs_nothing(
    name: Seq<u8>,
    is_regular_file: bool,
    p: SidecarPresence,
)
    requires
        p.md5,
        p.sha1,
        p.sha256,
        p.sha512,
    ensures
        required_work_spec(name, is_regular_file, p) == Seq::<Algo>::empty(),
{
    assert(missing_spec(p) =~= Seq::<Algo>::empty());
}

/// Completeness at the decision level: a target with no sidecars at all
/// requires all four algorithms, in canonical order.
pub proof fn lemma_fresh_target_needs_all(name: Seq<u8>, p: SidecarPresence)
    requires
        !is_sidecar_name_spec(name),
        !p.md5,
        !p.sha1,
        !p.sha256,
        !p.sha512,
    ensures
        required_work_spec(name, true, p) == algos_spec(),
{
    assert(missing_spec(p) =~= algos_spec());
}

/// Exclusion correctness: a derived sidecar name itself ends in a recognized
/// extension, so the files the tool writes are never hashing targets and are
/// never overwritten by the policy.
pub proof fn lemma_sidecar_never_target(name: Seq<u8>, alg: Algo, is_regular_file: bool)
    ensures
        is_sidecar_name_spec(sidecar_name_spec(name, alg)),
        !is_target_spec(sidecar_name_spec(name, alg), is_regular_file),
{
    let s = sidecar_name_spec(name, alg);
    let e = algo_ext_spec(alg);
    assert(s.subrange(s.len() - e.len(), s.len() as int) =~= e);
    assert(ends_with(s, e));
}

/// No duplicated work: the planned algorithms for one entry are pairwise
/// distinct, so no file is hashed twice for one algorithm in one run.
pub proof fn lemma_no_duplicate_work(p: SidecarPresence, i: int, j: int)
    requires
        0 <= i < j < missing_spec(p).len(),
    ensures
        missing_spec(p)[i] != missing_spec(p)[j],
{
}

/// No colliding writes: distinct algorithms derive distinct sidecar names for
/// one file, so concurrent tasks for one entry never write the same path.
pub proof fn lemma_distinct_algorithms_distinct_sidecars(name: Seq<u8>, a1: Algo, a2: Algo)
    requires
        a1 != a2,
    ensures
        sidecar_name_spec(name, a1) != sidecar_name_spec(name, a2),
{
    let s1 = sidecar_name_spec(name, a1);
    let s2 = sidecar_name_spec(name, a2);
    let e1 = algo_ext_spec(a1);
    let e2 = algo_ext_spec(a2);
    if e1.len() == e2.len() {
        // only SHA-256 and SHA-512 extensions share a length; they differ at
        // their fourth byte
        assert(s1[name.len() as int + 4] != s2[name.len() as int + 4]);
    } else {
        assert(s1.len() != s2.len());
    }
}

} // verus!
