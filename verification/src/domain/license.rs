//! The licensing negotiation of a track: its statuses, the legal steps
//! between them, and the laws those steps obey.

use vstd::prelude::*;

verus! {

/// Status of the licensing negotiation for a single track.
#[derive(Debug, Clone, Copy, PartialEq, Eq, Structural)]
pub enum LicenseStatus {
    Draft,
    Requested,
    InNegotiation,
    Approved,
    Licensed,
    Rejected,
}

/// The legal steps of the negotiation workflow, as a relation.
pub open spec fn is_legal_step(from: LicenseStatus, to: LicenseStatus) -> bool {
    ||| (from == LicenseStatus::Draft && to == LicenseStatus::Requested)
    ||| (from == LicenseStatus::Requested && to == LicenseStatus::InNegotiation)
    ||| (from == LicenseStatus::Requested && to == LicenseStatus::Rejected)
    ||| (from == LicenseStatus::InNegotiation && to == LicenseStatus::Approved)
    ||| (from == LicenseStatus::InNegotiation && to == LicenseStatus::Rejected)
    ||| (from == LicenseStatus::Approved && to == LicenseStatus::Licensed)
}

/// Returns `true` if moving a track's license from `from` to `to` is a legal
/// step in the negotiation workflow.
///
/// `Licensed` and `Rejected` are terminal: no transition starts from them.
pub fn can_transition(from: LicenseStatus, to: LicenseStatus) -> (allowed: bool)
    ensures
        allowed == is_legal_step(from, to),
{
    match (from, to) {
        (LicenseStatus::Draft, LicenseStatus::Requested) => true,
        (LicenseStatus::Requested, LicenseStatus::InNegotiation) => true,
        (LicenseStatus::Requested, LicenseStatus::Rejected) => true,
        (LicenseStatus::InNegotiation, LicenseStatus::Approved) => true,
        (LicenseStatus::InNegotiation, LicenseStatus::Rejected) => true,
        (LicenseStatus::Approved, LicenseStatus::Licensed) => true,
        _ => false,
    }
}


/// How far along the negotiation a status is. Every legal step moves to a
/// strictly later stage; the two terminal statuses share the last stage.
pub open spec fn stage(s: LicenseStatus) -> int {
    match s {
        LicenseStatus::Draft => 0,
        LicenseStatus::Requested => 1,
        LicenseStatus::InNegotiation => 2,
        LicenseStatus::Approved => 3,
        LicenseStatus::Licensed => 4,
        LicenseStatus::Rejected => 4,
    }
}

/// A status from which no step leads anywhere.
pub open spec fn is_terminal(s: LicenseStatus) -> bool {
    s == LicenseStatus::Licensed || s == LicenseStatus::Rejected
}

/// A sequence of statuses in which each one is a legal step from the one
/// before it: the history of one track's negotiation.
pub open spec fn is_legal_path(p: Seq<LicenseStatus>) -> bool {
    forall|i: int| 0 <= i < p.len() - 1 ==> #[trigger] legal_step_at(p, i)
}

/// The step from position `i` to position `i + 1` of `p` is legal.
pub open spec fn legal_step_at(p: Seq<LicenseStatus>, i: int) -> bool {
    is_legal_step(p[i], p[i + 1])
}

/// The name under which a status is shown in messages (its variant name).
pub open spec fn status_name(s: LicenseStatus) -> Seq<char> {
    match s {
        LicenseStatus::Draft => "Draft"@,
        LicenseStatus::Requested => "Requested"@,
        LicenseStatus::InNegotiation => "InNegotiation"@,
        LicenseStatus::Approved => "Approved"@,
        LicenseStatus::Licensed => "Licensed"@,
        LicenseStatus::Rejected => "Rejected"@,
    }
}

impl LicenseStatus {
    /// The variant name of the status, as error messages print it.
    pub fn name(self) -> (name: &'static str)
        ensures
            name@ == status_name(self),
    {
        match self {
            LicenseStatus::Draft => "Draft",
            LicenseStatus::Requested => "Requested",
            LicenseStatus::InNegotiation => "InNegotiation",
            LicenseStatus::Approved => "Approved",
            LicenseStatus::Licensed => "Licensed",
            LicenseStatus::Rejected => "Rejected",
        }
    }
}

/// `Licensed` and `Rejected` are terminal: no transition starts from them.
pub proof fn terminal_statuses_have_no_way_out(from: LicenseStatus, to: LicenseStatus)
    requires
        is_terminal(from),
    ensures
        !is_legal_step(from, to),
{
}

/// A track never "moves" to the status it already has.
pub proof fn no_step_stays_in_place(s: LicenseStatus)
    ensures
        !is_legal_step(s, s),
{
}

/// Every legal step moves the negotiation strictly forward; in particular
/// no step goes back to an earlier status.
pub proof fn steps_only_move_forward(from: LicenseStatus, to: LicenseStatus)
    requires
        is_legal_step(from, to),
    ensures
        stage(from) < stage(to),
{
}

/// Rejection is reachable from `Requested` and `InNegotiation`, and from
/// nowhere else.
pub proof fn rejection_comes_only_from_open_negotiations(from: LicenseStatus)
    ensures
        is_legal_step(from, LicenseStatus::Rejected) <==> (from == LicenseStatus::Requested
            || from == LicenseStatus::InNegotiation),
{
}

proof fn lemma_path_stages_increase(p: Seq<LicenseStatus>, i: int, j: int)
    requires
        is_legal_path(p),
        0 <= i <= j < p.len(),
    ensures
        stage(p[i]) + (j - i) <= stage(p[j]),
    decreases j - i,
{
    if i < j {
        lemma_path_stages_increase(p, i, j - 1);
        assert(legal_step_at(p, j - 1));
    }
}

/// A negotiation never comes back to a status it has already left, and no
/// history holds more than five statuses (at most four steps).
pub proof fn legal_paths_never_revisit(p: Seq<LicenseStatus>)
    requires
        is_legal_path(p),
    ensures
        forall|i: int, j: int| 0 <= i < j < p.len() ==> p[i] != p[j],
        p.len() <= 5,
{
    assert forall|i: int, j: int| 0 <= i < j < p.len() implies p[i] != p[j] by {
        lemma_path_stages_increase(p, i, j);
    }
    if p.len() > 5 {
        lemma_path_stages_increase(p, 0, 5);
    }
}

/// The only way from `Draft` to `Licensed` is the full happy path:
/// `Draft`, `Requested`, `InNegotiation`, `Approved`, `Licensed`.
pub proof fn the_only_way_to_licensed(p: Seq<LicenseStatus>)
    requires
        is_legal_path(p),
        p.len() > 0,
        p[0] == LicenseStatus::Draft,
        p.last() == LicenseStatus::Licensed,
    ensures
        p =~= seq![
            LicenseStatus::Draft,
            LicenseStatus::Requested,
            LicenseStatus::InNegotiation,
            LicenseStatus::Approved,
            LicenseStatus::Licensed,
        ],
{
    let n: int = p.len() as int;
    lemma_path_stages_increase(p, 0, n - 1);
    assert(n >= 2);
    assert(legal_step_at(p, n - 2));
    assert(p[n - 2] == LicenseStatus::Approved);
    assert(n >= 3);
    assert(legal_step_at(p, n - 3));
    assert(p[n - 3] == LicenseStatus::InNegotiation);
    assert(n >= 4);
    assert(legal_step_at(p, n - 4));
    assert(p[n - 4] == LicenseStatus::Requested);
    assert(n >= 5);
    assert(n == 5);
}

} // verus!
