//! Which children of a freshly instantiated scene are turned by half a turn
//! about the vertical axis, so that content authored in another axis
//! convention faces the right way.

use vstd::prelude::*;

verus! {

/// Whether the extension of `path` starts behind position `dot`: a dot stands
/// there, and neither a dot nor a separator follows it.
pub open spec fn spec_extension_starts(path: Seq<char>, dot: int) -> bool {
    &&& 0 <= dot < path.len()
    &&& path[dot] == '.'
    &&& forall|j: int| dot < j < path.len() ==> path[j] != '.' && path[j] != '/'
}

/// The extension of `path`: what follows the last dot of its last component,
/// if that component holds a dot. Upper and lower case are told apart.
pub open spec fn spec_extension(path: Seq<char>) -> Option<Seq<char>> {
    if exists|dot: int| spec_extension_starts(path, dot) {
        let dot = choose|dot: int| spec_extension_starts(path, dot);
        Some(path.subrange(dot + 1, path.len() as int))
    } else {
        None
    }
}

/// The extensions of the scene formats whose content is corrected.
pub open spec fn spec_is_scene_extension(extension: Seq<char>) -> bool {
    extension == seq!['g', 'l', 'b'] || extension == seq!['g', 'l', 't', 'f']
}

/// Whether the children of a scene are turned: the scene has not opted out,
/// and it comes from an asset whose path has the extension of a scene format.
pub open spec fn spec_needs_fix(opted_out: bool, asset_path: Option<Seq<char>>) -> bool {
    &&& !opted_out
    &&& asset_path is Some
    &&& spec_extension(asset_path.unwrap()) is Some
    &&& spec_is_scene_extension(spec_extension(asset_path.unwrap()).unwrap())
}

/// A direct child of a scene's root.
#[derive(Debug, Clone, Copy, PartialEq, Eq)]
pub struct SceneChild {
    /// The child's entity, as a number.
    pub entity: u64,
    /// Whether the child has a transform.
    pub has_transform: bool,
}

/// The entities of those among `children` that have a transform, in order.
pub open spec fn spec_with_transform(children: Seq<SceneChild>) -> Seq<u64>
    decreases children.len(),
{
    if children.len() == 0 {
        Seq::empty()
    } else {
        let before = spec_with_transform(children.drop_last());
        if children.last().has_transform {
            before.push(children.last().entity)
        } else {
            before
        }
    }
}

/// The entities to turn by half a turn about the vertical axis when a scene
/// is ready: the children with a transform if the scene needs the fix, else
/// none.
pub open spec fn spec_children_to_rotate(
    opted_out: bool,
    asset_path: Option<Seq<char>>,
    children: Seq<SceneChild>,
) -> Seq<u64> {
    if spec_needs_fix(opted_out, asset_path) {
        spec_with_transform(children)
    } else {
        Seq::empty()
    }
}

/// The text of an optional path.
pub open spec fn spec_path_text(asset_path: Option<&str>) -> Option<Seq<char>> {
    match asset_path {
        Some(path) => Some(path@),
        None => None,
    }
}

/// An extension start is the only one of its path.
pub proof fn lemma_extension_start_unique(path: Seq<char>, first: int, second: int)
    requires
        spec_extension_starts(path, first),
        spec_extension_starts(path, second),
    ensures
        first == second,
{
}

/// The extension of `path`.
pub fn extension(path: &str) -> (found: Option<String>)
    ensures
        found is Some <==> spec_extension(path@) is Some,
        found is Some ==> found.unwrap()@ == spec_extension(path@).unwrap(),
{
    let len: usize = path.unicode_len();
    let mut at: usize = len;
    while at > 0
        invariant
            at <= len,
            len == path@.len(),
            forall|j: int| at <= j < len ==> path@[j] != '.' && path@[j] != '/',
        decreases at,
    {
        let c = path.get_char(at - 1);
        if c == '.' {
            proof {
                let dot = at - 1;
                assert(spec_extension_starts(path@, dot));
                let chosen = choose|d: int| spec_extension_starts(path@, d);
                lemma_extension_start_unique(path@, dot, chosen);
            }
            return Some(String::from_str(path.substring_char(at, len)));
        }
        if c == '/' {
            proof {
                assert forall|d: int| !spec_extension_starts(path@, d) by {
                    if spec_extension_starts(path@, d) {
                        if d < at - 1 {
                            assert(path@[at - 1] == '/');
                        }
                    }
                }
            }
            return None;
        }
        at = at - 1;
    }
    None
}

/// Whether `extension` is that of a scene format whose content is corrected.
pub fn is_scene_extension(extension: &str) -> (recognized: bool)
    ensures
        recognized == spec_is_scene_extension(extension@),
{
    proof {
        reveal_strlit("glb");
        reveal_strlit("gltf");
        assert("glb"@ =~= seq!['g', 'l', 'b']);
        assert("gltf"@ =~= seq!['g', 'l', 't', 'f']);
    }
    let given = String::from_str(extension);
    given == String::from_str("glb") || given == String::from_str("gltf")
}

/// Whether the children of a scene are turned when it is ready.
pub fn needs_fix(opted_out: bool, asset_path: Option<&str>) -> (needed: bool)
    ensures
        needed == spec_needs_fix(opted_out, spec_path_text(asset_path)),
{
    if opted_out {
        return false;
    }
    match asset_path {
        None => false,
        Some(path) => match extension(path) {
            None => false,
            Some(found) => is_scene_extension(found.as_str()),
        },
    }
}

/// The entities of the children to turn by half a turn about the vertical
/// axis, now that the scene is ready. Each call answers for one notification:
/// nothing is remembered of earlier ones.
pub fn children_to_rotate(
    opted_out: bool,
    asset_path: Option<&str>,
    children: &Vec<SceneChild>,
) -> (rotated: Vec<u64>)
    ensures
        rotated@ == spec_children_to_rotate(opted_out, spec_path_text(asset_path), children@),
        opted_out ==> rotated@ == Seq::<u64>::empty(),
        asset_path is None ==> rotated@ == Seq::<u64>::empty(),
        asset_path is Some && (spec_extension(asset_path.unwrap()@) is None
            || !spec_is_scene_extension(spec_extension(asset_path.unwrap()@).unwrap()))
            ==> rotated@ == Seq::<u64>::empty(),
        !opted_out && asset_path is Some && spec_ends_in_scene_extension(asset_path.unwrap()@)
            ==> rotated@ == spec_with_transform(children@),
{
    proof {
        if asset_path is Some && spec_ends_in_scene_extension(asset_path.unwrap()@) {
            lemma_scene_asset_children_rotated(asset_path.unwrap()@, children@);
        }
    }
    let mut rotated: Vec<u64> = Vec::new();
    if !needs_fix(opted_out, asset_path) {
        return rotated;
    }
    let mut i: usize = 0;
    while i < children.len()
        invariant
            i <= children.len(),
            rotated@ == spec_with_transform(children@.take(i as int)),
        decreases children.len() - i,
    {
        proof {
            assert(children@.take(i + 1).drop_last() =~= children@.take(i as int));
        }
        if children[i].has_transform {
            rotated.push(children[i].entity);
        }
        i = i + 1;
    }
    proof {
        assert(children@.take(i as int) =~= children@);
    }
    rotated
}

/// A path that ends in a dot and `extension` has that extension, if
/// `extension` holds neither a dot nor a separator.
pub proof fn lemma_extension_of_suffix(path: Seq<char>, extension: Seq<char>)
    requires
        path.len() > extension.len(),
        path[path.len() - extension.len() - 1] == '.',
        path.subrange(path.len() - extension.len(), path.len() as int) == extension,
        forall|j: int| 0 <= j < extension.len() ==> extension[j] != '.' && extension[j] != '/',
    ensures
        spec_extension(path) == Some(extension),
{
    let dot = path.len() - extension.len() - 1;
    assert forall|j: int| dot < j < path.len() implies path[j] != '.' && path[j] != '/' by {
        assert(path[j] == extension[j - dot - 1]);
    }
    assert(spec_extension_starts(path, dot));
    let chosen = choose|d: int| spec_extension_starts(path, d);
    lemma_extension_start_unique(path, dot, chosen);
}

/// Whether `path` ends in `.glb` or `.gltf`.
pub open spec fn spec_ends_in_scene_extension(path: Seq<char>) -> bool {
    ||| path.len() >= 4 && path.subrange(path.len() - 4, path.len() as int) == seq![
        '.',
        'g',
        'l',
        'b',
    ]
    ||| path.len() >= 5 && path.subrange(path.len() - 5, path.len() as int) == seq![
        '.',
        'g',
        'l',
        't',
        'f',
    ]
}

/// The entity of every child with a transform is among `spec_with_transform`,
/// and nothing else is.
pub proof fn lemma_with_transform_members(children: Seq<SceneChild>, entity: u64)
    ensures
        spec_with_transform(children).contains(entity) <==> exists|i: int|
            0 <= i < children.len() && children[i].has_transform && children[i].entity == entity,
    decreases children.len(),
{
    if children.len() > 0 {
        let before = children.drop_last();
        let last = children.last();
        lemma_with_transform_members(before, entity);
        let all = spec_with_transform(children);
        if all.contains(entity) {
            let k = choose|k: int| 0 <= k < all.len() && all[k] == entity;
            if last.has_transform && k == all.len() - 1 {
                assert(children[children.len() - 1].has_transform && children[children.len()
                    - 1].entity == entity);
            } else {
                assert(spec_with_transform(before)[k] == entity);
                assert(spec_with_transform(before).contains(entity));
                let i = choose|i: int|
                    0 <= i < before.len() && before[i].has_transform && before[i].entity == entity;
                assert(children[i].has_transform && children[i].entity == entity);
            }
        }
        if exists|i: int|
            0 <= i < children.len() && children[i].has_transform && children[i].entity == entity {
            let i = choose|i: int|
                0 <= i < children.len() && children[i].has_transform && children[i].entity
                    == entity;
            if i == children.len() - 1 {
                assert(all[all.len() - 1] == entity);
            } else {
                assert(before[i].has_transform && before[i].entity == entity);
                assert(spec_with_transform(before).contains(entity));
                let k = choose|k: int|
                    0 <= k < spec_with_transform(before).len() && spec_with_transform(before)[k]
                        == entity;
                assert(all[k] == entity);
            }
        }
    }
}

/// A scene that has not opted out and whose asset path ends in `.glb` or
/// `.gltf` has every direct child with a transform turned, once each and in
/// order, and no other entity.
pub proof fn lemma_scene_asset_children_rotated(path: Seq<char>, children: Seq<SceneChild>)
    requires
        spec_ends_in_scene_extension(path),
    ensures
        spec_children_to_rotate(false, Some(path), children) == spec_with_transform(children),
        forall|i: int|
            0 <= i < children.len() && children[i].has_transform ==> spec_children_to_rotate(
                false,
                Some(path),
                children,
            ).contains(#[trigger] children[i].entity),
{
    let glb = seq!['g', 'l', 'b'];
    let gltf = seq!['g', 'l', 't', 'f'];
    if path.len() >= 4 && path.subrange(path.len() - 4, path.len() as int) == seq![
        '.',
        'g',
        'l',
        'b',
    ] {
        let tail = path.subrange(path.len() - 4, path.len() as int);
        assert(path[path.len() - 4] == tail[0]);
        assert(path.subrange(path.len() - 3, path.len() as int) =~= tail.subrange(1, 4));
        assert(tail.subrange(1, 4) =~= glb);
        lemma_extension_of_suffix(path, glb);
    } else {
        let tail = path.subrange(path.len() - 5, path.len() as int);
        assert(path[path.len() - 5] == tail[0]);
        assert(path.subrange(path.len() - 4, path.len() as int) =~= tail.subrange(1, 5));
        assert(tail.subrange(1, 5) =~= gltf);
        lemma_extension_of_suffix(path, gltf);
    }
    assert forall|i: int| 0 <= i < children.len() && children[i].has_transform implies
        spec_with_transform(children).contains(#[trigger] children[i].entity) by {
        lemma_with_transform_members(children, children[i].entity);
    }
}

/// A scene that has opted out has no child turned, whatever its asset path.
pub proof fn lemma_opted_out_rotates_nothing(
    asset_path: Option<Seq<char>>,
    children: Seq<SceneChild>,
)
    ensures
        spec_children_to_rotate(true, asset_path, children) == Seq::<u64>::empty(),
{
}

/// A scene whose asset path has no extension, or one that is neither `glb`
/// nor `gltf`, has no child turned.
pub proof fn lemma_other_extension_rotates_nothing(
    opted_out: bool,
    path: Seq<char>,
    children: Seq<SceneChild>,
)
    requires
        spec_extension(path) is None || !spec_is_scene_extension(spec_extension(path).unwrap()),
    ensures
        spec_children_to_rotate(opted_out, Some(path), children) == Seq::<u64>::empty(),
{
}

} // verus!
