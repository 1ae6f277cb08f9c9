use vstd::prelude::*;

verus! {

/// The two kinds of membership change.
#[derive(Clone, Copy, Debug, PartialEq, Eq, Structural)]
pub enum ConfChangeType {
    AddNode,
    RemoveNode,
}

/// The label of a membership-change kind.
pub open spec fn conf_change_label(conf_type: ConfChangeType) -> Seq<char> {
    match conf_type {
        ConfChangeType::AddNode => "AddNode"@,
        ConfChangeType::RemoveNode => "RemoveNode"@,
    }
}

/// A human-readable label for a membership-change kind, for diagnostics.
pub fn conf_change_type_str(conf_type: &ConfChangeType) -> (r: String)
    ensures
        r@ == conf_change_label(*conf_type),
{
    match *conf_type {
        ConfChangeType::AddNode => "AddNode".to_owned(),
        ConfChangeType::RemoveNode => "RemoveNode".to_owned(),
    }
}

} // verus!
