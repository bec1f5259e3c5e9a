use vstd::prelude::*;
use crate::dav::{directory_fragment, object_fragment, render_directory, render_object, ObjectInfo};
use crate::path::{
    contains_slash, first_path_segment, first_segment, has_slash, trim_leading_slashes, trim_start,
};

verus! {

/// The path of an object key below the directory `key`: the key with the
/// directory's prefix and the slashes after it removed.
pub open spec fn relative(key: Seq<char>, object_key: Seq<char>) -> Seq<char> {
    if key.is_prefix_of(object_key) {
        trim_start(object_key.subrange(key.len() as int, object_key.len() as int))
    } else {
        trim_start(object_key)
    }
}

/// The href of the child directory `name` of the directory `key`.
pub open spec fn directory_href(key: Seq<char>, name: Seq<char>) -> Seq<char> {
    if key.len() == 0 {
        "/"@ + name
    } else {
        "/"@ + key + "/"@ + name
    }
}

/// The fragments of the children of directory `key` that `objects` show,
/// in listing order, with the directory names seen so far. A direct child
/// object gets its own fragment; an object deeper down introduces its first
/// path segment as a child directory, once per distinct name. The seen
/// names start with `key` itself.
pub open spec fn listing(key: Seq<char>, objects: Seq<ObjectInfo>, now: Seq<char>) -> (Seq<char>, Seq<Seq<char>>)
    decreases objects.len(),
{
    if objects.len() == 0 {
        (Seq::empty(), seq![key])
    } else {
        let (text, seen) = listing(key, objects.drop_last(), now);
        let o = objects.last();
        let rel = relative(key, o.key@);
        if !has_slash(rel) {
            (text + object_fragment("/"@ + o.key@, o), seen)
        } else {
            let name = first_segment(rel);
            if seen.contains(name) {
                (text, seen)
            } else {
                (text + directory_fragment(directory_href(key, name), now), seen.push(name))
            }
        }
    }
}

pub open spec fn multistatus_open() -> Seq<char> {
    "<?xml version=\"1.0\" encoding=\"utf-8\"?><multistatus xmlns=\"DAV:\">"@
}

pub open spec fn multistatus_close() -> Seq<char> {
    "</multistatus>"@
}

/// A multistatus document around the given fragments.
pub open spec fn multistatus(body: Seq<char>) -> Seq<char> {
    multistatus_open() + body + multistatus_close()
}

/// The depth-one PROPFIND document of directory `key`: the directory's own
/// fragment, then its children.
pub open spec fn directory_listing(key: Seq<char>, objects: Seq<ObjectInfo>, now: Seq<char>) -> Seq<char> {
    multistatus(directory_fragment("/"@ + key, now) + listing(key, objects, now).0)
}

pub open spec fn texts(v: Seq<String>) -> Seq<Seq<char>> {
    v.map_values(|s: String| s@)
}

fn contains_text(seen: &Vec<String>, name: &String) -> (r: bool)
    ensures
        r == texts(seen@).contains(name@),
{
    let mut j: usize = 0;
    while j < seen.len()
        invariant
            j <= seen@.len(),
            forall|k: int| 0 <= k < j ==> seen@[k]@ != name@,
        decreases seen@.len() - j,
    {
        if seen[j] == *name {
            assert(texts(seen@)[j as int] == name@);
            return true;
        }
        j = j + 1;
    }
    assert(!texts(seen@).contains(name@)) by {
        if texts(seen@).contains(name@) {
            let k = choose|k: int| 0 <= k < texts(seen@).len() && texts(seen@)[k] == name@;
            assert(seen@[k]@ == name@);
        }
    }
    false
}

/// The part of `object_key` below the directory `key`.
pub fn relative_path(key: &str, object_key: &str) -> (r: String)
    ensures
        r@ == relative(key@, object_key@),
{
    let kn = key.unicode_len();
    let on = object_key.unicode_len();
    let mut is_prefix = kn <= on;
    let mut i: usize = 0;
    while is_prefix && i < kn
        invariant
            kn == key@.len(),
            on == object_key@.len(),
            i <= kn,
            is_prefix ==> kn <= on,
            is_prefix ==> forall|k: int| 0 <= k < i ==> key@[k] == object_key@[k],
            !is_prefix ==> !key@.is_prefix_of(object_key@),
        decreases kn - i + if is_prefix { 1int } else { 0int },
    {
        if key.get_char(i) != object_key.get_char(i) {
            is_prefix = false;
        } else {
            i = i + 1;
        }
    }
    if is_prefix {
        assert(key@.is_prefix_of(object_key@)) by {
            assert(key@ =~= object_key@.subrange(0, kn as int));
        }
        trim_leading_slashes(object_key.substring_char(kn, on))
    } else {
        trim_leading_slashes(object_key)
    }
}

fn push_fragment(text: &mut String, fragment: &String)
    ensures
        final(text)@ == old(text)@ + fragment@,
{
    text.append(fragment.as_str());
}

pub(crate) fn slash_then(s: &str) -> (r: String)
    ensures
        r@ == "/"@ + s@,
{
    let mut r = String::from_str("/");
    r.append(s);
    r
}

fn child_directory_href(key: &str, name: &str) -> (r: String)
    ensures
        r@ == directory_href(key@, name@),
{
    if key.unicode_len() == 0 {
        slash_then(name)
    } else {
        let mut r = slash_then(key);
        r.append("/");
        r.append(name);
        r
    }
}

/// The fragments of the children of directory `key` that `objects` show.
pub fn child_fragments(key: &str, objects: &Vec<ObjectInfo>, now: &str) -> (r: String)
    ensures
        r@ == listing(key@, objects@, now@).0,
{
    let mut text = String::new();
    let mut seen: Vec<String> = Vec::new();
    seen.push(String::from_str(key));
    let mut i: usize = 0;
    proof {
        assert(texts(seen@) =~= seq![key@]);
    }
    while i < objects.len()
        invariant
            i <= objects@.len(),
            (text@, texts(seen@)) == listing(key@, objects@.subrange(0, i as int), now@),
        decreases objects@.len() - i,
    {
        let ghost prev = objects@.subrange(0, i as int);
        proof {
            assert(objects@.subrange(0, i + 1).drop_last() =~= prev);
            assert(objects@.subrange(0, i + 1).last() == objects@[i as int]);
        }
        let o = &objects[i];
        let rel = relative_path(key, o.key.as_str());
        if !contains_slash(rel.as_str()) {
            let href = slash_then(o.key.as_str());
            let f = render_object(href.as_str(), o);
            push_fragment(&mut text, &f);
        } else {
            let name = first_path_segment(rel.as_str());
            if !contains_text(&seen, &name) {
                let href = child_directory_href(key, name.as_str());
                let f = render_directory(href.as_str(), now);
                push_fragment(&mut text, &f);
                let ghost old_seen = seen@;
                seen.push(name);
                proof {
                    assert(texts(seen@) =~= texts(old_seen).push(seen@.last()@));
                }
            }
        }
        i = i + 1;
    }
    proof {
        assert(objects@.subrange(0, i as int) =~= objects@);
    }
    text
}

/// The depth-one PROPFIND document of directory `key` over the objects
/// listed under it, or `None` when nothing is stored there.
pub fn propfind_listing(key: &str, objects: &Vec<ObjectInfo>, now: &str) -> (r: Option<String>)
    ensures
        objects@.len() == 0 <==> r is None,
        r matches Some(t) ==> t@ == directory_listing(key@, objects@, now@),
{
    if objects.len() == 0 {
        return None;
    }
    let mut page = String::from_str("<?xml version=\"1.0\" encoding=\"utf-8\"?><multistatus xmlns=\"DAV:\">");
    let href = slash_then(key);
    let own = render_directory(href.as_str(), now);
    page.append(own.as_str());
    let children = child_fragments(key, objects, now);
    page.append(children.as_str());
    page.append("</multistatus>");
    proof {
        assert(page@ =~= directory_listing(key@, objects@, now@));
    }
    Some(page)
}

} // verus!
