//! Image locations in the cluster registry.

use vstd::prelude::*;
use vstd::string::*;

verus! {

/// `base/user/name`: the location of image `name` of `user` in registry `base`.
pub open spec fn image_path(base: Seq<char>, user: Seq<char>, name: Seq<char>) -> Seq<char> {
    base + "/"@ + user + "/"@ + name
}

fn join_path(base: &String, user: &String, name: &str) -> (s: String)
    ensures
        s@ == image_path(base@, user@, name@),
{
    let mut s = base.clone();
    s.append("/");
    s.append(user.as_str());
    s.append("/");
    s.append(name);
    s
}

/// Where images are pushed to (inside the cluster) and pulled from (by the
/// cluster's nodes), and the user the images belong to.
pub struct Param {
    /// In-cluster registry url (for push).
    pub push_url: String,
    /// External registry url (for pulls by the cluster).
    pub pull_url: String,
    /// The user that uploaded images belong to.
    pub username: String,
}

impl Param {
    /// Location to push image `name` to.
    pub fn push_url(&self, name: &str) -> (s: String)
        ensures
            s@ == image_path(self.push_url@, self.username@, name@),
    {
        join_path(&self.push_url, &self.username, name)
    }

    /// Location the cluster pulls image `name` from.
    pub fn pull_url(&self, name: &str) -> (s: String)
        ensures
            s@ == image_path(self.pull_url@, self.username@, name@),
    {
        join_path(&self.pull_url, &self.username, name)
    }
}

/// A single registry url with the user that images belong to.
pub struct RegistryParam {
    /// In-cluster registry url.
    pub url: String,
    /// The user that uploaded images belong to.
    pub username: String,
}

impl RegistryParam {
    /// Location of image `name`.
    pub fn get_image_url(&self, name: &str) -> (s: String)
        ensures
            s@ == image_path(self.url@, self.username@, name@),
    {
        join_path(&self.url, &self.username, name)
    }

    /// Location of the `latest` tag of image `name`.
    pub fn get_latest_image_url(&self, name: &str) -> (s: String)
        ensures
            s@ == image_path(self.url@, self.username@, name@) + ":latest"@,
    {
        let mut s = join_path(&self.url, &self.username, name);
        s.append(":latest");
        s
    }
}

} // verus!
