use vstd::prelude::*;
use crate::headers::metadata_pairs;
use crate::headers::HttpMeta;
use crate::methods::{get_spec, mkcol_answer, mkcol_effect, marker_of, put_key, GetPlanSpec};
use crate::dav::ObjectInfo;
use crate::path::{ends_with_slash, first_segment, has_slash, key_of};
use crate::tree::{listing, relative};

verus! {

/// MKCOL twice on the same non-empty key: the first call, on a store
/// without the marker, answers 201 and stores it; the second then finds it
/// and answers 409.
pub proof fn lemma_mkcol_twice(store: Set<Seq<char>>, path: Seq<char>)
    requires
        key_of(path).len() > 0,
        !store.contains(marker_of(path)),
    ensures
        mkcol_answer(store.contains(marker_of(path))) == 201,
        mkcol_answer(mkcol_effect(store, path).contains(marker_of(path))) == 409,
{
}

/// The keys stored under `key`, that is, with `key` as a prefix.
pub open spec fn stored_under(store: Set<Seq<char>>, key: Seq<char>) -> Set<Seq<char>> {
    store.filter(|k: Seq<char>| key.is_prefix_of(k))
}

/// The store once the given keys are deleted.
pub open spec fn without(store: Set<Seq<char>>, deleted: Seq<Seq<char>>) -> Set<Seq<char>> {
    store.difference(deleted.to_set())
}

/// DELETE of a stored object removes only that object. DELETE of a key
/// that is not stored, with `listed` the keys stored under it, answers 404
/// exactly when nothing is stored under it; otherwise deleting the listed
/// keys and then the key itself leaves every other key and nothing under
/// the key.
pub proof fn lemma_delete(store: Set<Seq<char>>, key: Seq<char>, listed: Seq<Seq<char>>)
    requires
        listed.to_set() == stored_under(store, key),
    ensures
        store.contains(key) ==> forall|k: Seq<char>| #[trigger] without(store, seq![key]).contains(k)
            <==> store.contains(k) && k != key,
        !store.contains(key) ==> (listed.len() == 0 <==> forall|k: Seq<char>| #[trigger] store.contains(k)
            ==> !key.is_prefix_of(k)),
        !store.contains(key) && listed.len() > 0 ==> forall|k: Seq<char>| #[trigger] without(store, listed.push(key)).contains(k)
            <==> store.contains(k) && !key.is_prefix_of(k),
{
    assert forall|k: Seq<char>| #[trigger] without(store, seq![key]).contains(k)
        <==> store.contains(k) && k != key by {
        assert(seq![key].to_set().contains(k) <==> k == key) by {
            if seq![key].to_set().contains(k) {
                assert(seq![key].contains(k));
            }
            if k == key {
                assert(seq![key][0] == key);
            }
        }
    }
    if !store.contains(key) {
        if listed.len() == 0 {
            assert(listed.to_set().len() == 0) by {
                assert(listed.to_set() =~= Set::empty());
            }
            assert forall|k: Seq<char>| #[trigger] store.contains(k) implies !key.is_prefix_of(k) by {
                if key.is_prefix_of(k) {
                    assert(stored_under(store, key).contains(k));
                    assert(listed.to_set() =~= Set::empty());
                }
            }
        } else {
            assert(listed.contains(listed[0]));
            assert(stored_under(store, key).contains(listed[0]));
        }
        assert forall|k: Seq<char>| #[trigger] without(store, listed.push(key)).contains(k)
            <==> store.contains(k) && !key.is_prefix_of(k) by {
            assert(listed.push(key).to_set().contains(k) <==> listed.to_set().contains(k) || k == key) by {
                if listed.push(key).contains(k) {
                    let i = choose|i: int| 0 <= i < listed.push(key).len() && listed.push(key)[i] == k;
                    if i < listed.len() {
                        assert(listed[i] == k);
                        assert(listed.contains(k));
                    }
                }
                if listed.contains(k) {
                    let i = choose|i: int| 0 <= i < listed.len() && listed[i] == k;
                    assert(listed.push(key)[i] == k);
                }
                if k == key {
                    assert(listed.push(key)[listed.len() as int] == k);
                }
            }
            if k == key {
                assert(key.is_prefix_of(k)) by {
                    assert(k.subrange(0, key.len() as int) =~= key);
                }
            }
        }
    }
}

/// PUT and then GET of the same file path reach the same key, and the GET
/// answer carries the content type that was stored with the object.
pub proof fn lemma_put_then_get(path: Seq<char>, stored: HttpMeta)
    requires
        key_of(path).len() > 0,
        !ends_with_slash(path),
    ensures
        put_key(path) matches Some(k) && get_spec(path, false) == GetPlanSpec::Fetch(k),
        stored.content_type matches Some(c) ==> metadata_pairs(stored)[0] == ("Content-Type"@, c@),
{
}

/// Whether the object, listed under directory `key`, lies deeper than a
/// direct child and so introduces the child directory `name`.
pub open spec fn introduces(key: Seq<char>, o: ObjectInfo, name: Seq<char>) -> bool {
    has_slash(relative(key, o.key@)) && first_segment(relative(key, o.key@)) == name
}

/// In a depth-one listing each child directory is emitted once: the
/// directory names recorded hold no repeat, and they are the listed
/// directory itself and exactly the names that the nested objects
/// introduce.
pub proof fn lemma_listing_directories_once(key: Seq<char>, objects: Seq<ObjectInfo>, now: Seq<char>)
    ensures
        listing(key, objects, now).1.no_duplicates(),
        forall|name: Seq<char>| #[trigger] listing(key, objects, now).1.contains(name) <==> (name == key
            || exists|i: int| 0 <= i < objects.len() && introduces(key, #[trigger] objects[i], name)),
    decreases objects.len(),
{
    let seen = listing(key, objects, now).1;
    if objects.len() == 0 {
        assert forall|name: Seq<char>| #[trigger] seen.contains(name) <==> name == key by {
            if name == key {
                assert(seen[0] == key);
            }
        }
    } else {
        let prev = objects.drop_last();
        lemma_listing_directories_once(key, prev, now);
        let before = listing(key, prev, now).1;
        let o = objects.last();
        let rel = relative(key, o.key@);
        assert forall|name: Seq<char>| #[trigger] seen.contains(name) <==> (name == key
            || exists|i: int| 0 <= i < objects.len() && introduces(key, #[trigger] objects[i], name)) by {
            if exists|i: int| 0 <= i < prev.len() && introduces(key, #[trigger] prev[i], name) {
                let i = choose|i: int| 0 <= i < prev.len() && introduces(key, #[trigger] prev[i], name);
                assert(objects[i] == prev[i]);
            }
            if exists|i: int| 0 <= i < objects.len() && introduces(key, #[trigger] objects[i], name) {
                let i = choose|i: int| 0 <= i < objects.len() && introduces(key, #[trigger] objects[i], name);
                if i < prev.len() {
                    assert(prev[i] == objects[i]);
                } else {
                    assert(objects[i] == o);
                }
            }
            if has_slash(rel) && !before.contains(first_segment(rel)) {
                let pushed = before.push(first_segment(rel));
                assert(seen == pushed);
                if pushed.contains(name) {
                    let j = choose|j: int| 0 <= j < pushed.len() && pushed[j] == name;
                    if j < before.len() {
                        assert(before[j] == name);
                    }
                }
                if before.contains(name) {
                    let j = choose|j: int| 0 <= j < before.len() && before[j] == name;
                    assert(pushed[j] == name);
                }
                if name == first_segment(rel) {
                    assert(pushed[before.len() as int] == name);
                    assert(introduces(key, objects[objects.len() - 1], name));
                }
            } else if has_slash(rel) && name == first_segment(rel) {
                assert(introduces(key, objects[objects.len() - 1], name));
            }
        }
        if has_slash(rel) && !before.contains(first_segment(rel)) {
            let pushed = before.push(first_segment(rel));
            assert forall|a: int, b: int| 0 <= a < pushed.len() && 0 <= b < pushed.len() && a != b
                implies pushed[a] != pushed[b] by {
                if a < before.len() && b < before.len() {
                } else if a < before.len() {
                    assert(before.contains(pushed[a]));
                } else {
                    assert(before.contains(pushed[b]));
                }
            }
        }
    }
}

} // verus!
