use vstd::prelude::*;

verus! {

/// The identifier the client sends as `id` in every request.
pub const DEFAULT_UA: &'static str = "arni/0.1.0";

/// The client's self-identifying string, such as `arni/0.1.0`.
#[derive(Debug)]
pub struct UA {
    inner: String,
}

impl View for UA {
    type V = Seq<char>;

    closed spec fn view(&self) -> Seq<char> {
        self.inner@
    }
}

impl UA {
    pub fn new(ua: &str) -> (r: Self)
        ensures
            r@ == ua@,
    {
        Self { inner: String::from_str(ua) }
    }

    pub fn as_str(&self) -> (r: &str)
        ensures
            r@ == self@,
    {
        self.inner.as_str()
    }

    pub fn into_string(self) -> (r: String)
        ensures
            r@ == self@,
    {
        self.inner
    }
}

impl Default for UA {
    /// The library's own name and version.
    fn default() -> (r: Self)
        ensures
            r@ == DEFAULT_UA@,
    {
        Self { inner: String::from_str(DEFAULT_UA) }
    }
}

} // verus!
