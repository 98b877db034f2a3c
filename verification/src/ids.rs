//! Menu-item identifiers: actionable items carry `"{kind}-{resource id}"`,
//! fixed items carry literal identifiers. Decoding turns a clicked
//! identifier back into a structured action.

use vstd::prelude::*;
use vstd::string::StringExecFns;
use crate::strings::{
    contains_seq, contains_seq_at, str_contains, str_eq, after_last_dash, tail_after_last_dash,
    lemma_tail_no_dash,
};

verus! {

/// The identifier of an actionable item: kind, `'-'`, resource id.
pub open spec fn item_id(kind: Seq<char>, rid: Seq<char>) -> Seq<char> {
    kind + seq!['-'] + rid
}

/// Builds the identifier of an actionable item for one resource.
pub fn make_item_id(kind: &str, rid: &str) -> (r: String)
    ensures
        r@ == item_id(kind@, rid@),
{
    let mut s = String::from_str(kind);
    s.append("-");
    s.append(rid);
    proof {
        reveal_strlit("-");
        assert("-"@ =~= seq!['-']);
        assert(s@ =~= item_id(kind@, rid@));
    }
    s
}

/// What a clicked menu-item identifier asks for.
#[derive(Clone, Debug, PartialEq, Eq)]
pub enum Action {
    /// Terminate the process.
    Quit,
    /// Stop the client's service (privileged, fire-and-forget).
    StopService,
    /// Copy the address of the resource with this id to the clipboard.
    CopyAddress(String),
    /// Start authentication for the resource with this id (privileged).
    Authenticate(String),
    /// Anything else: a no-op.
    Unknown,
}

#[verifier::ext_equal]
pub enum ActionView {
    Quit,
    StopService,
    CopyAddress(Seq<char>),
    Authenticate(Seq<char>),
    Unknown,
}

impl View for Action {
    type V = ActionView;

    open spec fn view(&self) -> ActionView {
        match self {
            Action::Quit => ActionView::Quit,
            Action::StopService => ActionView::StopService,
            Action::CopyAddress(rid) => ActionView::CopyAddress(rid@),
            Action::Authenticate(rid) => ActionView::Authenticate(rid@),
            Action::Unknown => ActionView::Unknown,
        }
    }
}

/// How an identifier is routed: the two fixed identifiers exactly, then the
/// two resource-action kinds by containment, the resource id being the part
/// after the last `'-'`.
pub open spec fn spec_decode(s: Seq<char>) -> ActionView {
    if s == "quit"@ {
        ActionView::Quit
    } else if s == "stop_service"@ {
        ActionView::StopService
    } else if contains_seq(s, "copy_address"@) {
        ActionView::CopyAddress(tail_after_last_dash(s))
    } else if contains_seq(s, "authenticate"@) {
        ActionView::Authenticate(tail_after_last_dash(s))
    } else {
        ActionView::Unknown
    }
}

/// Decodes a clicked identifier into the action it stands for.
pub fn decode_action(id: &str) -> (a: Action)
    ensures
        a@ == spec_decode(id@),
{
    if str_eq(id, "quit") {
        Action::Quit
    } else if str_eq(id, "stop_service") {
        Action::StopService
    } else if str_contains(id, "copy_address") {
        Action::CopyAddress(String::from_str(after_last_dash(id)))
    } else if str_contains(id, "authenticate") {
        Action::Authenticate(String::from_str(after_last_dash(id)))
    } else {
        Action::Unknown
    }
}

/// The tail after the last `'-'` of an actionable identifier is the tail
/// after the last `'-'` of the resource id itself: everything before the
/// structural separator is irrelevant.
pub proof fn lemma_item_id_tail(kind: Seq<char>, rid: Seq<char>)
    ensures
        tail_after_last_dash(item_id(kind, rid)) == tail_after_last_dash(rid),
    decreases rid.len(),
{
    let s = item_id(kind, rid);
    if rid.len() == 0 {
        assert(s.last() == '-');
        assert(tail_after_last_dash(s) =~= tail_after_last_dash(rid));
    } else if rid.last() == '-' {
        assert(s.last() == '-');
    } else {
        lemma_item_id_tail(kind, rid.drop_last());
        assert(s.drop_last() =~= item_id(kind, rid.drop_last()));
        assert(tail_after_last_dash(s) =~= tail_after_last_dash(rid));
    }
}

/// Identifier round trip: a copy-address identifier for resource id `rid`
/// decodes to a copy-address action for `tail_after_last_dash(rid)`; when
/// `rid` holds no `'-'`, that is `rid` itself. An id with a `'-'` resolves
/// only to its part after the last `'-'`: a documented ambiguity of the
/// encoding.
pub proof fn lemma_copy_id_round_trip(rid: Seq<char>)
    ensures
        spec_decode(item_id("copy_address"@, rid)) == ActionView::CopyAddress(
            tail_after_last_dash(rid),
        ),
        !rid.contains('-') ==> spec_decode(item_id("copy_address"@, rid))
            == ActionView::CopyAddress(rid),
{
    let s = item_id("copy_address"@, rid);
    reveal_strlit("quit");
    reveal_strlit("stop_service");
    reveal_strlit("copy_address");
    assert(s.len() == "copy_address"@.len() + 1 + rid.len());
    assert(s != "quit"@);
    assert(s != "stop_service"@);
    assert(contains_seq_at(s, "copy_address"@, 0)) by {
        assert(s.subrange(0, "copy_address"@.len() as int) =~= "copy_address"@);
    }
    lemma_item_id_tail("copy_address"@, rid);
    if !rid.contains('-') {
        lemma_tail_no_dash(rid);
    }
}

/// The same round trip for an authenticate identifier. Note that an
/// authenticate identifier also contains no `"copy_address"`, so the decode
/// reaches the authenticate arm.
pub proof fn lemma_auth_id_round_trip(rid: Seq<char>)
    requires
        !contains_seq(item_id("authenticate"@, rid), "copy_address"@),
    ensures
        spec_decode(item_id("authenticate"@, rid)) == ActionView::Authenticate(
            tail_after_last_dash(rid),
        ),
        !rid.contains('-') ==> spec_decode(item_id("authenticate"@, rid))
            == ActionView::Authenticate(rid),
{
    let s = item_id("authenticate"@, rid);
    reveal_strlit("quit");
    reveal_strlit("stop_service");
    reveal_strlit("authenticate");
    assert(s.len() == "authenticate"@.len() + 1 + rid.len());
    assert(s != "quit"@);
    assert(s != "stop_service"@);
    assert(contains_seq_at(s, "authenticate"@, 0)) by {
        assert(s.subrange(0, "authenticate"@.len() as int) =~= "authenticate"@);
    }
    lemma_item_id_tail("authenticate"@, rid);
    if !rid.contains('-') {
        lemma_tail_no_dash(rid);
    }
}

} // verus!
