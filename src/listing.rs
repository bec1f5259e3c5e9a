use vstd::prelude::*;
use crate::dav::ObjectInfo;

verus! {

/// The prefix that a listing of directory `key` asks for: none for the
/// root, whose listing covers the whole store.
pub fn list_prefix(key: &str) -> (r: Option<String>)
    ensures
        key@.len() == 0 <==> r is None,
        r matches Some(p) ==> p@ == key@,
{
    if key.unicode_len() == 0 {
        None
    } else {
        Some(String::from_str(key))
    }
}

/// The objects of a listing, gathered page by page.
pub struct Listing {
    pub objects: Vec<ObjectInfo>,
}

impl Listing {
    /// A listing with no page yet.
    pub fn new() -> (r: Self)
        ensures
            r.objects@ == Seq::<ObjectInfo>::empty(),
    {
        Listing { objects: Vec::new() }
    }

    /// Adds the objects of one page, in order, and says whether the store
    /// has more: another page is fetched exactly when this one was
    /// truncated.
    pub fn absorb(&mut self, page: Vec<ObjectInfo>, truncated: bool) -> (more: bool)
        ensures
            final(self).objects@ == old(self).objects@ + page@,
            more == truncated,
    {
        let mut page = page;
        self.objects.append(&mut page);
        truncated
    }
}

} // verus!
