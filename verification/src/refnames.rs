//! The names of references, and the refspecs that map a remote's references
//! to local ones.

use vstd::prelude::*;
use vstd::string::*;

verus! {

/// The full name of the branch `name`.
pub open spec fn branch_reference(name: Seq<char>) -> Seq<char> {
    "refs/heads/"@ + name
}

/// The full name of the tag `name`.
pub open spec fn tag_reference(name: Seq<char>) -> Seq<char> {
    "refs/tags/"@ + name
}

/// The refspec that fetches the branch `name` of `remote` into the
/// remote-tracking reference of that name.
pub open spec fn tracking_refspec(remote: Seq<char>, name: Seq<char>) -> Seq<char> {
    branch_reference(name) + ":refs/remotes/"@ + remote + "/"@ + name
}

/// As `tracking_refspec`, and forced: the local reference is overwritten.
pub open spec fn forced_tracking_refspec(remote: Seq<char>, name: Seq<char>) -> Seq<char> {
    "+"@ + tracking_refspec(remote, name)
}

/// The refspec that fetches the tag `name` under its own name.
pub open spec fn tag_refspec(name: Seq<char>) -> Seq<char> {
    tag_reference(name) + ":"@ + tag_reference(name)
}

/// The refspec from `source` to `destination`.
pub open spec fn refspec(source: Seq<char>, destination: Seq<char>) -> Seq<char> {
    source + ":"@ + destination
}

/// The short name of the branch `name` of `remote`, as an upstream is named.
pub open spec fn upstream_name(remote: Seq<char>, name: Seq<char>) -> Seq<char> {
    remote + "/"@ + name
}

pub fn branch_reference_of(name: &str) -> (r: String)
    ensures
        r@ == branch_reference(name@),
{
    let mut r = String::from_str("refs/heads/");
    r.append(name);
    r
}

pub fn tag_reference_of(name: &str) -> (r: String)
    ensures
        r@ == tag_reference(name@),
{
    let mut r = String::from_str("refs/tags/");
    r.append(name);
    r
}

pub fn tracking_refspec_of(remote: &str, name: &str) -> (r: String)
    ensures
        r@ == tracking_refspec(remote@, name@),
{
    let mut r = branch_reference_of(name);
    r.append(":refs/remotes/");
    r.append(remote);
    r.append("/");
    r.append(name);
    r
}

pub fn forced_tracking_refspec_of(remote: &str, name: &str) -> (r: String)
    ensures
        r@ == forced_tracking_refspec(remote@, name@),
{
    let mut r = String::from_str("+");
    let plain = tracking_refspec_of(remote, name);
    r.append(plain.as_str());
    r
}

pub fn tag_refspec_of(name: &str) -> (r: String)
    ensures
        r@ == tag_refspec(name@),
{
    let tag = tag_reference_of(name);
    let mut r = tag.clone();
    r.append(":");
    r.append(tag.as_str());
    r
}

pub fn refspec_of(source: &str, destination: &str) -> (r: String)
    ensures
        r@ == refspec(source@, destination@),
{
    let mut r = String::from_str(source);
    r.append(":");
    r.append(destination);
    r
}

pub fn upstream_name_of(remote: &str, name: &str) -> (r: String)
    ensures
        r@ == upstream_name(remote@, name@),
{
    let mut r = String::from_str(remote);
    r.append("/");
    r.append(name);
    r
}

} // verus!
