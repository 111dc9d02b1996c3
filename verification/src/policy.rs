use vstd::prelude::*;

verus! {

/// The needle `n` occurs in the haystack `h` starting at offset `i`.
pub open spec fn is_match_at(h: Seq<u8>, n: Seq<u8>, i: int) -> bool {
    0 <= i && i + n.len() <= h.len() && h.subrange(i, i + n.len() as int) == n
}

/// The needle `n` occurs somewhere in the haystack `h`.
pub open spec fn contains_seq(h: Seq<u8>, n: Seq<u8>) -> bool {
    exists|i: int| is_match_at(h, n, i)
}

/// Compares the needle against the haystack at one fixed offset.
fn match_at(h: &Vec<u8>, n: &Vec<u8>, i: usize) -> (r: bool)
    requires
        i + n@.len() <= h@.len(),
    ensures
        r == is_match_at(h@, n@, i as int),
{
    let hlen: usize = h.len();
    let mut j: usize = 0;
    while j < n.len()
        invariant
            i + n@.len() <= h@.len(),
            h@.len() == hlen,
            j <= n@.len(),
            forall|k: int| 0 <= k < j ==> h@[i + k] == n@[k],
        decreases n@.len() - j,
    {
        if h[i + j] != n[j] {
            assert(!is_match_at(h@, n@, i as int)) by {
                if h@.subrange(i as int, i + n@.len() as int) == n@ {
                    assert(h@.subrange(i as int, i + n@.len() as int)[j as int] == h@[i + j]);
                }
            }
            return false;
        }
        j += 1;
    }
    assert(h@.subrange(i as int, i + n@.len() as int) =~= n@);
    true
}

/// Case-sensitive containment check: does the byte string `n` occur
/// anywhere in the byte string `h`? The empty needle occurs in every
/// haystack.
pub fn contains_bytes(h: &Vec<u8>, n: &Vec<u8>) -> (r: bool)
    ensures
        r == contains_seq(h@, n@),
{
    if n.len() > h.len() {
        assert(forall|i: int| !is_match_at(h@, n@, i));
        return false;
    }
    let bound: usize = h.len() - n.len();
    let mut i: usize = 0;
    loop
        invariant
            n@.len() <= h@.len(),
            bound == h@.len() - n@.len(),
            i <= bound,
            forall|k: int| 0 <= k < i ==> !is_match_at(h@, n@, k),
        decreases bound - i,
    {
        if match_at(h, n, i) {
            return true;
        }
        if i == bound {
            assert(forall|k: int| !is_match_at(h@, n@, k));
            return false;
        }
        i += 1;
    }
}

/// The kind of signal the termination sweep delivers; only a forceful,
/// non-catchable kill is ever configured.
#[derive(Clone, Copy, Debug, PartialEq, Eq, Structural)]
pub enum SignalKind {
    ForceKill,
}

/// The static termination policy: a set of name substrings plus the signal
/// kind to deliver. A process bound to the monitored port is signaled only
/// if its name contains at least one of the substrings, so unrelated
/// processes that merely share the port number are left alone.
pub struct TerminationPolicy {
    /// Name fragments identifying the supervised service's processes.
    pub substrings: Vec<Vec<u8>>,
    /// The signal delivered to every match.
    pub signal: SignalKind,
}

impl TerminationPolicy {
    /// The process name `name` matches the policy: it contains at least one
    /// of the policy's substrings.
    pub open spec fn spec_matches(self, name: Seq<u8>) -> bool {
        exists|j: int| 0 <= j < self.substrings@.len() && contains_seq(name, self.substrings@[j]@)
    }

    /// Tests a process name against the policy's substrings.
    pub fn matches_name(&self, name: &Vec<u8>) -> (r: bool)
        ensures
            r == self.spec_matches(name@),
    {
        let mut j: usize = 0;
        while j < self.substrings.len()
            invariant
                j <= self.substrings@.len(),
                forall|k: int| 0 <= k < j ==> !contains_seq(name@, self.substrings@[k]@),
            decreases self.substrings@.len() - j,
        {
            if contains_bytes(name, &self.substrings[j]) {
                return true;
            }
            j += 1;
        }
        false
    }
}

/// The service's binary name, `st_score_analyzer`, as bytes.
pub open spec fn app_name_bytes() -> Seq<u8> {
    seq![
        115u8, 116u8, 95u8, 115u8, 99u8, 111u8, 114u8, 101u8, 95u8, 97u8, 110u8, 97u8, 108u8,
        121u8, 122u8, 101u8, 114u8,
    ]
}

/// The generic entry-point name, `entrypoint`, as bytes.
pub open spec fn entrypoint_bytes() -> Seq<u8> {
    seq![101u8, 110u8, 116u8, 114u8, 121u8, 112u8, 111u8, 105u8, 110u8, 116u8]
}

/// The underlying interpreter's name, `streamlit`, as bytes.
pub open spec fn interpreter_bytes() -> Seq<u8> {
    seq![115u8, 116u8, 114u8, 101u8, 97u8, 109u8, 108u8, 105u8, 116u8]
}

/// The compiled-in termination policy: the service's binary name, the
/// generic entry-point name and the interpreter's name, with a forceful
/// kill signal.
pub fn default_policy() -> (p: TerminationPolicy)
    ensures
        p.substrings@.len() == 3,
        p.substrings@[0]@ == app_name_bytes(),
        p.substrings@[1]@ == entrypoint_bytes(),
        p.substrings@[2]@ == interpreter_bytes(),
        p.signal == SignalKind::ForceKill,
{
    let app: Vec<u8> = vec![
        115u8, 116u8, 95u8, 115u8, 99u8, 111u8, 114u8, 101u8, 95u8, 97u8, 110u8, 97u8, 108u8,
        121u8, 122u8, 101u8, 114u8,
    ];
    let entry: Vec<u8> = vec![101u8, 110u8, 116u8, 114u8, 121u8, 112u8, 111u8, 105u8, 110u8, 116u8];
    let interp: Vec<u8> = vec![115u8, 116u8, 114u8, 101u8, 97u8, 109u8, 108u8, 105u8, 116u8];
    assert(app@ =~= app_name_bytes());
    assert(entry@ =~= entrypoint_bytes());
    assert(interp@ =~= interpreter_bytes());
    let mut substrings: Vec<Vec<u8>> = Vec::new();
    substrings.push(app);
    substrings.push(entry);
    substrings.push(interp);
    TerminationPolicy { substrings, signal: SignalKind::ForceKill }
}

} // verus!
