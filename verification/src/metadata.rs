//! Stream metadata: retention and access control settings, plus an open
//! set of custom properties, built through a builder.
//!
//! Durations are carried as whole milliseconds; a custom property holds
//! its value as raw serialized text, keyed uniquely.

use vstd::prelude::*;

verus! {

/// Access control of a stream: the five role lists.
#[derive(Debug)]
pub struct StreamAcl {
    pub read_roles: Vec<String>,
    pub write_roles: Vec<String>,
    pub delete_roles: Vec<String>,
    pub meta_read_roles: Vec<String>,
    pub meta_write_roles: Vec<String>,
}

impl StreamAcl {
    /// An ACL with every role list empty.
    pub fn empty() -> (r: StreamAcl)
        ensures
            r.read_roles@.len() == 0,
            r.write_roles@.len() == 0,
            r.delete_roles@.len() == 0,
            r.meta_read_roles@.len() == 0,
            r.meta_write_roles@.len() == 0,
    {
        StreamAcl {
            read_roles: Vec::new(),
            write_roles: Vec::new(),
            delete_roles: Vec::new(),
            meta_read_roles: Vec::new(),
            meta_write_roles: Vec::new(),
        }
    }
}

/// No two properties share a key.
pub open spec fn props_unique(props: Seq<(String, String)>) -> bool {
    forall|i: int, j: int|
        0 <= i < j < props.len() ==> props[i].0@ != props[j].0@
}

/// Metadata of a stream. `max_age` and `cache_control` are milliseconds.
#[derive(Debug)]
pub struct StreamMetadata {
    pub max_count: Option<u64>,
    pub max_age: Option<u64>,
    pub truncate_before: Option<u64>,
    pub cache_control: Option<u64>,
    pub acl: StreamAcl,
    pub custom_properties: Vec<(String, String)>,
}

impl StreamMetadata {
    /// A fresh builder with nothing set.
    pub fn builder() -> (r: StreamMetadataBuilder)
        ensures
            r.max_count is None,
            r.max_age is None,
            r.truncate_before is None,
            r.cache_control is None,
            r.acl is None,
            r.properties@.len() == 0,
    {
        StreamMetadataBuilder::new()
    }
}

/// Outcome of reading a stream's metadata.
#[derive(Debug)]
pub enum StreamMetadataResult {
    Deleted { stream: String },
    NotFound { stream: String },
    Success { stream: String, version: i64, metadata: StreamMetadata },
}

/// Builds a `StreamMetadata` value step by step.
pub struct StreamMetadataBuilder {
    pub max_count: Option<u64>,
    pub max_age: Option<u64>,
    pub truncate_before: Option<u64>,
    pub cache_control: Option<u64>,
    pub acl: Option<StreamAcl>,
    pub properties: Vec<(String, String)>,
}

impl StreamMetadataBuilder {
    pub fn new() -> (r: StreamMetadataBuilder)
        ensures
            r.max_count is None,
            r.max_age is None,
            r.truncate_before is None,
            r.cache_control is None,
            r.acl is None,
            r.properties@.len() == 0,
    {
        StreamMetadataBuilder {
            max_count: None,
            max_age: None,
            truncate_before: None,
            cache_control: None,
            acl: None,
            properties: Vec::new(),
        }
    }

    pub fn max_count(self, value: u64) -> (r: StreamMetadataBuilder)
        ensures
            r == (StreamMetadataBuilder { max_count: Some(value), ..self }),
    {
        StreamMetadataBuilder { max_count: Some(value), ..self }
    }

    pub fn max_age(self, value: u64) -> (r: StreamMetadataBuilder)
        ensures
            r == (StreamMetadataBuilder { max_age: Some(value), ..self }),
    {
        StreamMetadataBuilder { max_age: Some(value), ..self }
    }

    pub fn truncate_before(self, value: u64) -> (r: StreamMetadataBuilder)
        ensures
            r == (StreamMetadataBuilder { truncate_before: Some(value), ..self }),
    {
        StreamMetadataBuilder { truncate_before: Some(value), ..self }
    }

    pub fn cache_control(self, value: u64) -> (r: StreamMetadataBuilder)
        ensures
            r == (StreamMetadataBuilder { cache_control: Some(value), ..self }),
    {
        StreamMetadataBuilder { cache_control: Some(value), ..self }
    }

    pub fn acl(self, value: StreamAcl) -> (r: StreamMetadataBuilder)
        ensures
            r.acl is Some,
            r.max_count == self.max_count,
            r.max_age == self.max_age,
            r.truncate_before == self.truncate_before,
            r.cache_control == self.cache_control,
            r.properties@ == self.properties@,
    {
        StreamMetadataBuilder { acl: Some(value), ..self }
    }

    /// Sets a custom property. A property under the same key has its value
    /// replaced; a new key is appended. Key uniqueness is preserved.
    pub fn insert_custom_property(self, key: String, value: String) -> (r: StreamMetadataBuilder)
        requires
            props_unique(self.properties@),
        ensures
            props_unique(r.properties@),
            r.max_count == self.max_count,
            r.max_age == self.max_age,
            r.truncate_before == self.truncate_before,
            r.cache_control == self.cache_control,
            r.acl == self.acl,
            ({
                let pre = self.properties@;
                if exists|x: int| 0 <= x < pre.len() && (#[trigger] pre[x]).0@ == key@ {
                    exists|x: int|
                        0 <= x < pre.len() && (#[trigger] pre[x]).0@ == key@ && r.properties@
                            == pre.update(x, (pre[x].0, value))
                } else {
                    r.properties@ == pre.push((key, value))
                }
            }),
    {
        let ghost orig = self.properties@;
        let mut b = self;
        let n = b.properties.len();
        let mut i: usize = 0;
        while i < n
            invariant
                i <= n == b.properties@.len(),
                b.properties@ == orig,
                orig == self.properties@,
                props_unique(orig),
                b.max_count == self.max_count,
                b.max_age == self.max_age,
                b.truncate_before == self.truncate_before,
                b.cache_control == self.cache_control,
                b.acl == self.acl,
                forall|k: int| 0 <= k < i ==> (#[trigger] orig[k]).0@ != key@,
            decreases n - i,
        {
            let same = b.properties[i].0 == key;
            if same {
                let ghost pre = b.properties@;
                let mut pair = b.properties.remove(i);
                pair.1 = value;
                b.properties.insert(i, pair);
                proof {
                    let post = b.properties@;
                    assert forall|x: int| 0 <= x < post.len() && x != i implies post[x] == pre[x] by {
                        if x < i {
                            assert(post[x] == pre.remove(i as int).insert(
                                i as int,
                                post[i as int],
                            )[x]);
                        }
                    }
                    assert(post[i as int].0@ == key@);
                    assert forall|a: int, c: int| 0 <= a < c < post.len() implies post[a].0@
                        != post[c].0@ by {
                        assert(a != i ==> post[a] == pre[a]);
                        assert(c != i ==> post[c] == pre[c]);
                        assert(pre[a].0@ != pre[c].0@);
                    }
                    assert(post =~= pre.update(i as int, (pre[i as int].0, value)));
                }
                return b;
            }
            i = i + 1;
        }
        let ghost pre = b.properties@;
        b.properties.push((key, value));
        proof {
            let post = b.properties@;
            assert(post[pre.len() as int].0@ == key@);
            assert forall|a: int, c: int| 0 <= a < c < post.len() implies post[a].0@ != post[c].0@
                by {
                assert(a < pre.len() ==> post[a] == pre[a]);
                if c < pre.len() {
                    assert(post[c] == pre[c]);
                } else {
                    assert(c == pre.len());
                    assert(pre[a].0@ != key@);
                }
            }
        }
        return b;
    }

    /// Yields the metadata: what was set, an empty ACL when none was, and
    /// the properties as accumulated.
    pub fn build(self) -> (r: StreamMetadata)
        ensures
            r.max_count == self.max_count,
            r.max_age == self.max_age,
            r.truncate_before == self.truncate_before,
            r.cache_control == self.cache_control,
            self.acl matches Some(a) ==> r.acl == a,
            self.acl is None ==> r.acl.read_roles@.len() == 0 && r.acl.write_roles@.len() == 0
                && r.acl.delete_roles@.len() == 0 && r.acl.meta_read_roles@.len() == 0
                && r.acl.meta_write_roles@.len() == 0,
            r.custom_properties@ == self.properties@,
    {
        let acl = match self.acl {
            Some(a) => a,
            None => StreamAcl::empty(),
        };
        StreamMetadata {
            max_count: self.max_count,
            max_age: self.max_age,
            truncate_before: self.truncate_before,
            cache_control: self.cache_control,
            acl,
            custom_properties: self.properties,
        }
    }
}

} // verus!
