use vstd::prelude::*;
use vstd::string::*;

use crate::env::EnvTypes;

verus! {

pub open spec fn scheme() -> Seq<char> {
    "https://"@
}

/// The address of a deployment's host.
pub open spec fn host_url(env: EnvTypes) -> Seq<char> {
    scheme() + env.token()
}

/// The address of a deployment's host followed by an image identifier.
pub open spec fn image_url(env: EnvTypes, image_id: Seq<char>) -> Seq<char> {
    scheme() + env.token() + image_id
}

fn host_address(env: EnvTypes) -> (r: String)
    ensures
        r@ == host_url(env),
{
    let mut s = String::from_str("https://");
    s.append(env.as_str());
    s
}

fn image_address(env: EnvTypes, image_id: &str) -> (r: String)
    ensures
        r@ == image_url(env, image_id@),
{
    let mut s = host_address(env);
    s.append(image_id);
    s
}

/// Where a single upload slot is requested.
pub fn single_upload_url(env: EnvTypes) -> (r: String)
    ensures
        r@ == host_url(env),
{
    host_address(env)
}

/// Where the rating of one image is read.
pub fn single_result_url(env: EnvTypes, image_id: &str) -> (r: String)
    ensures
        r@ == image_url(env, image_id@),
{
    image_address(env, image_id)
}

/// Where one image is flagged for review.
pub fn report_url(env: EnvTypes, image_id: &str) -> (r: String)
    ensures
        r@ == image_url(env, image_id@),
{
    image_address(env, image_id)
}

/// Where a batch of upload slots is requested.
pub fn batch_upload_url(env: EnvTypes) -> (r: String)
    ensures
        r@ == host_url(env),
{
    host_address(env)
}

/// Where the ratings of a batch are read.
pub fn batch_result_url(env: EnvTypes) -> (r: String)
    ensures
        r@ == host_url(env),
{
    host_address(env)
}

} // verus!
