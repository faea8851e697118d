use vstd::prelude::*;
use vstd::string::*;

verus! {

/// A report served over HTTP below a base URL.
#[derive(Clone, Debug)]
pub struct AllureNetworkSource {
    base_url: String,
}

impl AllureNetworkSource {
    /// The base URL of the report, without a trailing separator.
    pub closed spec fn base_url_spec(&self) -> Seq<char> {
        self.base_url@
    }

    pub fn new(base_url: &str) -> (r: Self)
        ensures
            r.base_url_spec() == base_url@,
    {
        AllureNetworkSource { base_url: String::from_str(base_url) }
    }

    pub fn base_url(&self) -> (r: &String)
        ensures
            r@ == self.base_url_spec(),
    {
        &self.base_url
    }

    /// The URL of the file at `path`, relative to the report's root: the base URL, a
    /// `/`, then the path.
    pub fn file_url(&self, path: &str) -> (r: String)
        ensures
            r@ == self.base_url_spec() + seq!['/'] + path@,
    {
        proof {
            reveal_strlit("/");
            assert("/"@ =~= seq!['/']);
        }
        let mut url = self.base_url.clone();
        url.append("/");
        url.append(path);
        url
    }
}

/// A report stored in a directory of the local file system.
#[derive(Clone, Debug)]
pub struct AllureFileSource {
    root_path: String,
}

impl AllureFileSource {
    /// The directory that holds the report.
    pub closed spec fn root_path_spec(&self) -> Seq<char> {
        self.root_path@
    }

    pub fn new(root_path: &str) -> (r: Self)
        ensures
            r.root_path_spec() == root_path@,
    {
        AllureFileSource { root_path: String::from_str(root_path) }
    }

    pub fn root_path(&self) -> (r: &String)
        ensures
            r@ == self.root_path_spec(),
    {
        &self.root_path
    }
}

} // verus!
