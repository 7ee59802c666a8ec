//! What the daemon reports to local callers about itself: the pairing code
//! derived from the device fingerprint, the grant counts of a status view,
//! and the authorization state shown beside each transport-era session.

use vstd::prelude::*;
use vstd::string::*;

use crate::authorization::{legacy_status, AccessGrant, AuthorizationStatus};
use crate::bridge::ascii_lower;
use crate::session::{status_name, SessionStatus};
use crate::ids::SessionId;
use crate::time_model::Timestamp;

verus! {

/// The characters of a fingerprint that are not separators.
pub open spec fn fingerprint_chars(fingerprint: Seq<char>) -> Seq<char> {
    fingerprint.filter(|c: char| c != '-')
}

/// The compact form shown in a pairing code: the first eight non-separator
/// characters of the fingerprint (fewer where it has fewer).
pub open spec fn compact_fingerprint(fingerprint: Seq<char>) -> Seq<char> {
    let chars = fingerprint_chars(fingerprint);
    chars.take(if chars.len() < 8 { chars.len() as int } else { 8 })
}

/// Where the compact form is split: after its fourth character, or at its
/// end where it is shorter.
pub open spec fn pairing_split(compact: Seq<char>) -> int {
    if compact.len() < 4 {
        compact.len() as int
    } else {
        4
    }
}

/// The pairing code of a fingerprint: `KMP-`, the first half of the compact
/// form, `-`, and the rest.
pub open spec fn spec_pairing_code(fingerprint: Seq<char>) -> Seq<char> {
    let compact = compact_fingerprint(fingerprint);
    let k = pairing_split(compact);
    "KMP-"@ + compact.subrange(0, k) + "-"@ + compact.subrange(k, compact.len() as int)
}

proof fn lemma_filter_step(s: Seq<char>, i: int)
    requires
        0 <= i < s.len(),
    ensures
        fingerprint_chars(s.take(i + 1)) == if s[i] != '-' {
            fingerprint_chars(s.take(i)).push(s[i])
        } else {
            fingerprint_chars(s.take(i))
        },
{
    reveal(Seq::filter);
    assert(s.take(i + 1).drop_last() =~= s.take(i));
    assert(s.take(i + 1).last() == s[i]);
}

proof fn lemma_filter_prefix(s: Seq<char>, i: int)
    requires
        0 <= i <= s.len(),
    ensures
        fingerprint_chars(s) == fingerprint_chars(s.take(i)) + fingerprint_chars(s.skip(i)),
{
    assert(s =~= s.take(i) + s.skip(i));
    Seq::filter_distributes_over_add(s.take(i), s.skip(i), |c: char| c != '-');
}

/// The pairing code shown when pairing begins, from the device fingerprint.
pub fn pairing_code(fingerprint: &str) -> (code: String)
    ensures
        code@ == spec_pairing_code(fingerprint@),
{
    let n = fingerprint.unicode_len();
    let mut compact = String::new();
    let mut count: usize = 0;
    let mut i: usize = 0;
    while i < n && count < 8
        invariant
            n == fingerprint@.len(),
            i <= n,
            compact@ == fingerprint_chars(fingerprint@.take(i as int)),
            count == compact@.len(),
            count <= 8,
        decreases n - i,
    {
        let c = fingerprint.get_char(i);
        proof {
            lemma_filter_step(fingerprint@, i as int);
        }
        if c != '-' {
            compact.append(fingerprint.substring_char(i, i + 1));
            count = count + 1;
            proof {
                assert(fingerprint@.subrange(i as int, i + 1) =~= seq![c]);
            }
        }
        i = i + 1;
    }
    proof {
        lemma_filter_prefix(fingerprint@, i as int);
        let chars = fingerprint_chars(fingerprint@);
        if count < 8 {
            assert(i == n);
            assert(fingerprint@.skip(i as int) =~= Seq::<char>::empty());
            reveal(Seq::filter);
            assert(fingerprint_chars(fingerprint@.skip(i as int)) =~= Seq::<char>::empty());
            assert(chars =~= compact@);
            assert(compact_fingerprint(fingerprint@) =~= compact@);
        } else {
            assert(chars.take(8) =~= compact@);
            assert(compact_fingerprint(fingerprint@) =~= compact@);
        }
    }
    let k: usize = if count < 4 {
        count
    } else {
        4
    };
    let code = String::from_str("KMP-");
    let code = code.concat(compact.as_str().substring_char(0, k));
    let code = code.concat("-");
    let code = code.concat(compact.as_str().substring_char(k, count));
    code
}

/// The number of grants in `grants` that satisfy `counted`.
pub open spec fn count_grants(grants: Seq<AccessGrant>, counted: spec_fn(AccessGrant) -> bool) -> nat
    decreases grants.len(),
{
    if grants.len() == 0 {
        0
    } else {
        count_grants(grants.drop_last(), counted) + if counted(grants.last()) {
            1nat
        } else {
            0nat
        }
    }
}

proof fn lemma_count_step(grants: Seq<AccessGrant>, counted: spec_fn(AccessGrant) -> bool, i: int)
    requires
        0 <= i < grants.len(),
    ensures
        count_grants(grants.take(i + 1), counted) == count_grants(grants.take(i), counted) + if counted(
            grants[i],
        ) {
            1nat
        } else {
            0nat
        },
        count_grants(grants.take(i), counted) <= i,
    decreases i,
{
    assert(grants.take(i + 1).drop_last() =~= grants.take(i));
    if i > 0 {
        lemma_count_step(grants, counted, i - 1);
    } else {
        assert(grants.take(0).len() == 0);
    }
}

/// The number of grants usable as authority at `now`, for a status view.
pub fn count_usable_grants(grants: &Vec<AccessGrant>, now: Timestamp) -> (n: usize)
    ensures
        n == count_grants(grants@, |g: AccessGrant| g@.usable_at(now)),
{
    let ghost counted = |g: AccessGrant| g@.usable_at(now);
    let mut n: usize = 0;
    let mut i: usize = 0;
    while i < grants.len()
        invariant
            i <= grants.len(),
            counted == (|g: AccessGrant| g@.usable_at(now)),
            n == count_grants(grants@.take(i as int), counted),
        decreases grants.len() - i,
    {
        proof {
            lemma_count_step(grants@, counted, i as int);
        }
        if grants[i].is_usable_at(now) {
            n = n + 1;
        }
        i = i + 1;
    }
    proof {
        assert(grants@.take(i as int) =~= grants@);
    }
    n
}

/// The number of grants waiting for a local approval, for a status view.
pub fn count_pending_grants(grants: &Vec<AccessGrant>) -> (n: usize)
    ensures
        n == count_grants(grants@, |g: AccessGrant| g.status == AuthorizationStatus::PendingApproval),
{
    let ghost counted = |g: AccessGrant| g.status == AuthorizationStatus::PendingApproval;
    let mut n: usize = 0;
    let mut i: usize = 0;
    while i < grants.len()
        invariant
            i <= grants.len(),
            counted == (|g: AccessGrant| g.status == AuthorizationStatus::PendingApproval),
            n == count_grants(grants@.take(i as int), counted),
        decreases grants.len() - i,
    {
        proof {
            lemma_count_step(grants@, counted, i as int);
        }
        if grants[i].status == AuthorizationStatus::PendingApproval {
            n = n + 1;
        }
        i = i + 1;
    }
    proof {
        assert(grants@.take(i as int) =~= grants@);
    }
    n
}

/// The lower-case name a status view gives an authorization status.
pub open spec fn status_label(status: AuthorizationStatus) -> Seq<char> {
    match status {
        AuthorizationStatus::PendingApproval => "pendingapproval"@,
        AuthorizationStatus::Active => "active"@,
        AuthorizationStatus::Suspended => "suspended"@,
        AuthorizationStatus::Expired => "expired"@,
        AuthorizationStatus::Revoked => "revoked"@,
        AuthorizationStatus::Consumed => "consumed"@,
    }
}

/// The first character and length of each status label, which tell the
/// labels apart.
proof fn lemma_status_label_shape(status: AuthorizationStatus)
    ensures
        status == AuthorizationStatus::PendingApproval ==> status_label(status).len() == 15
            && status_label(status)[0] == 'p',
        status == AuthorizationStatus::Active ==> status_label(status).len() == 6
            && status_label(status)[0] == 'a',
        status == AuthorizationStatus::Suspended ==> status_label(status).len() == 9
            && status_label(status)[0] == 's',
        status == AuthorizationStatus::Expired ==> status_label(status).len() == 7
            && status_label(status)[0] == 'e',
        status == AuthorizationStatus::Revoked ==> status_label(status).len() == 7
            && status_label(status)[0] == 'r',
        status == AuthorizationStatus::Consumed ==> status_label(status).len() == 8
            && status_label(status)[0] == 'c',
        forall|i: int|
            0 <= i < status_label(status).len() ==> 'a' <= #[trigger] status_label(status)[i] <= 'z',
{
    reveal_strlit("pendingapproval");
    reveal_strlit("active");
    reveal_strlit("suspended");
    reveal_strlit("expired");
    reveal_strlit("revoked");
    reveal_strlit("consumed");
}

/// The label shown beside a session names its grant's status faithfully:
/// distinct statuses get distinct labels, only an `Active` grant is shown
/// as `active`, no status is shown as `none` (which means no grant), and
/// every label is a lower-case word.
pub proof fn lemma_status_labels_are_faithful(a: AuthorizationStatus, b: AuthorizationStatus)
    ensures
        status_label(a) == status_label(b) <==> a == b,
        status_label(a) == "active"@ <==> a == AuthorizationStatus::Active,
        status_label(a) != "none"@,
        forall|i: int| 0 <= i < status_label(a).len() ==> 'a' <= #[trigger] status_label(a)[i] <= 'z',
{
    lemma_status_label_shape(a);
    lemma_status_label_shape(b);
    reveal_strlit("active");
    reveal_strlit("none");
    lemma_status_label_shape(AuthorizationStatus::Active);
}

/// The label of the status a legacy session row maps to is that row
/// status's name, lower-cased: the label is the status's own name.
pub proof fn lemma_status_label_is_the_lowercased_name(row: SessionStatus)
    requires
        legacy_status(row) is Some,
    ensures
        status_label(legacy_status(row)->0) == status_name(row).map_values(|c: char| ascii_lower(c)),
{
    reveal_strlit("pendingapproval");
    reveal_strlit("active");
    reveal_strlit("suspended");
    reveal_strlit("expired");
    reveal_strlit("revoked");
    reveal_strlit("PendingApproval");
    reveal_strlit("Active");
    reveal_strlit("Suspended");
    reveal_strlit("Expired");
    reveal_strlit("Revoked");
    assert(status_label(legacy_status(row)->0) =~= status_name(row).map_values(
        |c: char| ascii_lower(c),
    ));
}

/// The authorization state shown beside a session: the status of the first
/// grant whose subject it is, or `none` where no grant names it.
pub fn authorization_status_label(
    statuses: &Vec<(SessionId, AuthorizationStatus)>,
    session_id: SessionId,
) -> (label: &'static str)
    ensures
        (exists|i: int| 0 <= i < statuses.len() && statuses@[i].0 == session_id) ==> exists|i: int|
            0 <= i < statuses.len() && statuses@[i].0 == session_id && (forall|j: int|
                0 <= j < i ==> statuses@[j].0 != session_id) && label@ == status_label(statuses@[i].1),
        !(exists|i: int| 0 <= i < statuses.len() && statuses@[i].0 == session_id) ==> label@ == "none"@,
{
    let mut i: usize = 0;
    while i < statuses.len()
        invariant
            i <= statuses.len(),
            forall|j: int| 0 <= j < i ==> statuses@[j].0 != session_id,
        decreases statuses.len() - i,
    {
        if statuses[i].0 == session_id {
            let label = match statuses[i].1 {
                AuthorizationStatus::PendingApproval => "pendingapproval",
                AuthorizationStatus::Active => "active",
                AuthorizationStatus::Suspended => "suspended",
                AuthorizationStatus::Expired => "expired",
                AuthorizationStatus::Revoked => "revoked",
                AuthorizationStatus::Consumed => "consumed",
            };
            return label;
        }
        i = i + 1;
    }
    "none"
}

} // verus!
