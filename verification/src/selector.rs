//! Selector composition. The deployment tooling labels workload instances
//! with a role label and a version label; listings must reproduce the exact
//! convention `<role-label>,<version-label-key>=<version>`, and per-node
//! listings restrict by the field `spec.nodeName=<node>`.

use vstd::prelude::*;
use vstd::string::StringExecFns;

verus! {

/// The label selector `<role>,<key>=<version>`.
pub open spec fn selector_view(role: Seq<char>, key: Seq<char>, version: Seq<char>) -> Seq<char> {
    role + seq![','] + key + seq!['='] + version
}

/// The field selector `spec.nodeName=<node>`.
pub open spec fn node_field_view(node: Seq<char>) -> Seq<char> {
    "spec.nodeName="@ + node
}

/// Compose the label selector that matches instances of `role` at `version`.
pub fn version_selector(role: &String, key: &String, version: &String) -> (r: String)
    ensures
        r@ == selector_view(role@, key@, version@),
{
    proof {
        reveal_strlit(",");
        reveal_strlit("=");
    }
    let mut s = role.clone();
    s.append(",");
    s.append(key.as_str());
    s.append("=");
    s.append(version.as_str());
    proof {
        assert(","@ =~= seq![',']);
        assert("="@ =~= seq!['=']);
        assert(s@ =~= selector_view(role@, key@, version@));
    }
    s
}

/// Compose the field selector that restricts a listing to `node`.
pub fn node_field_selector(node: &String) -> (r: String)
    ensures
        r@ == node_field_view(node@),
{
    let mut s = String::from_str("spec.nodeName=");
    s.append(node.as_str());
    s
}

} // verus!
