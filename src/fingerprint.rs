//! The fingerprint of a request: a 64-bit hash of the resource path, the
//! id, the language (for localized resources) and the shape of the result.

use std::collections::hash_map::DefaultHasher;
use std::hash::Hasher;

use vstd::prelude::*;
use vstd::std_specs::hash::DefaultHasherAdditionalSpecFns;

use crate::endpoint::Language;

verus! {

/// The shape of a cached result; results that share a path are told apart
/// by it.
#[derive(Clone, Copy, Debug, PartialEq, Eq)]
pub enum Shape {
    /// One record: a fixed resource or one addressed by id.
    Item,
    /// The list of all ids of a resource.
    IdList,
}

/// The byte that stands for a shape in the hashed key.
pub open spec fn shape_tag(shape: Shape) -> u8 {
    match shape {
        Shape::Item => 1,
        Shape::IdList => 2,
    }
}

/// The bytes of the language part of the key: the language code for a
/// localized resource, nothing otherwise.
pub open spec fn lang_bytes(lang: Option<Language>) -> Seq<u8> {
    match lang {
        Some(l) => vstd::utf8::encode_utf8(l.code()),
        None => Seq::empty(),
    }
}

/// The fingerprint of a request: the hasher's digest of the shape tag, the
/// path, the id and the language, with a byte that UTF-8 never holds
/// between the texts.
pub open spec fn fingerprint_of(shape: Shape, path: Seq<char>, id: Seq<char>, lang: Option<Language>) -> u64 {
    DefaultHasher::spec_finish(
        seq![
            seq![shape_tag(shape)],
            vstd::utf8::encode_utf8(path),
            seq![0xffu8],
            vstd::utf8::encode_utf8(id),
            seq![0xffu8],
            lang_bytes(lang),
        ],
    )
}

/// The fingerprint of the request for `id` under `path`, in `lang` where
/// the resource is localized (`None` otherwise), with result shape `shape`.
/// Equal arguments give equal fingerprints.
pub fn fingerprint(shape: Shape, path: &str, id: &str, lang: Option<Language>) -> (r: u64)
    ensures
        r == fingerprint_of(shape, path@, id@, lang),
{
    let mut hasher = DefaultHasher::new();
    let tag: u8 = match shape {
        Shape::Item => 1,
        Shape::IdList => 2,
    };
    let tag_bytes = [tag];
    let sep = [0xffu8];
    assert(tag_bytes@ =~= seq![shape_tag(shape)]);
    assert(sep@ =~= seq![0xffu8]);
    hasher.write(&tag_bytes);
    hasher.write(path.as_bytes());
    hasher.write(&sep);
    hasher.write(id.as_bytes());
    hasher.write(&sep);
    match lang {
        Some(l) => hasher.write(l.as_str().as_bytes()),
        None => {
            let none: [u8; 0] = [];
            assert(none@ =~= Seq::<u8>::empty());
            hasher.write(&none);
        },
    }
    proof {
        assert(hasher@ =~= seq![
            seq![shape_tag(shape)],
            vstd::utf8::encode_utf8(path@),
            seq![0xffu8],
            vstd::utf8::encode_utf8(id@),
            seq![0xffu8],
            lang_bytes(lang),
        ]);
    }
    hasher.finish()
}

} // verus!
