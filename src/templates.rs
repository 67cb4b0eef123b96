use vstd::prelude::*;
use vstd::string::*;
use crate::text::{copy_string, str_eq};

verus! {

/// Prefix of labels that carry user-supplied tags.
pub const K8S_LABEL_API_TAG_PREFIX: &'static str = "hawkeye.api.tags/";

/// Name of a watcher's configuration map.
pub fn configmap_name(watcher_id: &str) -> (r: String)
    ensures
        r@ == "hawkeye-config-"@ + watcher_id@,
{
    String::from_str("hawkeye-config-").concat(watcher_id)
}

/// Name of a watcher's deployment.
pub fn deployment_name(watcher_id: &str) -> (r: String)
    ensures
        r@ == "hawkeye-deploy-"@ + watcher_id@,
{
    String::from_str("hawkeye-deploy-").concat(watcher_id)
}

/// Name of a watcher's video service.
pub fn service_name(watcher_id: &str) -> (r: String)
    ensures
        r@ == "hawkeye-vid-svc-"@ + watcher_id@,
{
    String::from_str("hawkeye-vid-svc-").concat(watcher_id)
}

/// The map an association list denotes: later entries override earlier
/// ones with the same key.
pub open spec fn tag_map(t: Seq<(String, String)>) -> Map<Seq<char>, Seq<char>>
    decreases t.len(),
{
    if t.len() == 0 {
        Map::empty()
    } else {
        tag_map(t.drop_last()).insert(t.last().0@, t.last().1@)
    }
}

/// No key occurs twice.
pub open spec fn keys_unique(t: Seq<(String, String)>) -> bool {
    forall|i: int, j: int| 0 <= i < j < t.len() ==> t[i].0@ != t[j].0@
}

/// Label key of a user tag: `app` is kept, any other key gets the tag prefix.
pub open spec fn label_key(k: Seq<char>) -> Seq<char> {
    if k == "app"@ {
        k
    } else {
        K8S_LABEL_API_TAG_PREFIX@ + k
    }
}

/// User tags as labels, in order.
pub open spec fn labelled(t: Seq<(String, String)>) -> Seq<(Seq<char>, Seq<char>)> {
    t.map_values(|p: (String, String)| (label_key(p.0@), p.1@))
}

/// The map of `base` updated with `extra`, entries in order.
pub open spec fn with_entries(base: Map<Seq<char>, Seq<char>>, extra: Seq<(Seq<char>, Seq<char>)>) -> Map<Seq<char>, Seq<char>>
    decreases extra.len(),
{
    if extra.len() == 0 {
        base
    } else {
        with_entries(base, extra.drop_last()).insert(extra.last().0, extra.last().1)
    }
}

proof fn lemma_update_existing(t: Seq<(String, String)>, j: int, e: (String, String))
    requires
        keys_unique(t),
        0 <= j < t.len(),
        t[j].0@ == e.0@,
    ensures
        tag_map(t.update(j, e)) == tag_map(t).insert(e.0@, e.1@),
        keys_unique(t.update(j, e)),
    decreases t.len(),
{
    let u = t.update(j, e);
    if j == t.len() - 1 {
        assert(u.drop_last() == t.drop_last());
        assert(tag_map(u) =~= tag_map(t).insert(e.0@, e.1@));
    } else {
        assert(u.drop_last() == t.drop_last().update(j, e));
        lemma_update_existing(t.drop_last(), j, e);
        assert(t.last().0@ != e.0@);
        assert(tag_map(u) =~= tag_map(t).insert(e.0@, e.1@));
    }
}

proof fn lemma_absent_key(t: Seq<(String, String)>, k: Seq<char>)
    requires
        forall|i: int| 0 <= i < t.len() ==> t[i].0@ != k,
    ensures
        !tag_map(t).contains_key(k),
    decreases t.len(),
{
    if t.len() > 0 {
        lemma_absent_key(t.drop_last(), k);
    }
}

/// Sets `key` to `value` in an association list with unique keys.
fn insert_tag(tags: &mut Vec<(String, String)>, key: String, value: String)
    requires
        keys_unique(old(tags)@),
    ensures
        keys_unique(final(tags)@),
        tag_map(final(tags)@) == tag_map(old(tags)@).insert(key@, value@),
{
    let mut i: usize = 0;
    while i < tags.len()
        invariant
            i <= tags.len(),
            tags@ == old(tags)@,
            keys_unique(tags@),
            forall|j: int| 0 <= j < i ==> tags@[j].0@ != key@,
        decreases tags.len() - i,
    {
        if str_eq(tags[i].0.as_str(), key.as_str()) {
            let ghost e = (key, value);
            proof {
                lemma_update_existing(tags@, i as int, e);
            }
            tags.set(i, (key, value));
            return;
        }
        i = i + 1;
    }
    let ghost before = tags@;
    tags.push((key, value));
    assert(tags@.drop_last() == before);
}

/// Labels of a watcher resource: the system tags, then the user tags under
/// their label keys, a later entry overriding an earlier one with the same key.
pub fn sys_api_tags_concat(
    system_tags: &Vec<(String, String)>,
    api_tags: Option<&Vec<(String, String)>>,
) -> (r: Vec<(String, String)>)
    ensures
        keys_unique(r@),
        tag_map(r@) == with_entries(
            tag_map(system_tags@),
            match api_tags {
                Some(a) => labelled(a@),
                None => Seq::empty(),
            },
        ),
{
    let mut tags: Vec<(String, String)> = Vec::new();
    let mut i: usize = 0;
    while i < system_tags.len()
        invariant
            i <= system_tags.len(),
            keys_unique(tags@),
            tag_map(tags@) == tag_map(system_tags@.subrange(0, i as int)),
        decreases system_tags.len() - i,
    {
        let k = copy_string(&system_tags[i].0);
        let v = copy_string(&system_tags[i].1);
        insert_tag(&mut tags, k, v);
        assert(system_tags@.subrange(0, i + 1).drop_last() == system_tags@.subrange(0, i as int));
        i = i + 1;
    }
    assert(system_tags@.subrange(0, system_tags.len() as int) == system_tags@);
    let ghost base = tag_map(system_tags@);
    if let Some(a) = api_tags {
        let mut j: usize = 0;
        while j < a.len()
            invariant
                j <= a.len(),
                keys_unique(tags@),
                tag_map(tags@) == with_entries(base, labelled(a@).subrange(0, j as int)),
            decreases a.len() - j,
        {
            let k = &a[j].0;
            let key = if str_eq(k.as_str(), "app") {
                copy_string(k)
            } else {
                String::from_str(K8S_LABEL_API_TAG_PREFIX).concat(k.as_str())
            };
            let v = copy_string(&a[j].1);
            insert_tag(&mut tags, key, v);
            assert(labelled(a@).subrange(0, j + 1).drop_last() == labelled(a@).subrange(0, j as int));
            j = j + 1;
        }
        assert(labelled(a@).subrange(0, a.len() as int) == labelled(a@));
    } else {
        assert(with_entries(base, Seq::empty()) == base);
    }
    tags
}

} // verus!
