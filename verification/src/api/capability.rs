//! Capabilities: what can be done with a handle, by the kind of thing that
//! it refers to.
//!
//! The host's types form a shallow lattice: objects, of which fields, of
//! which structs and classes; fields of the other family, of which
//! properties; console objects. A capability is attached to every handle
//! type whose objects support it, so unrelated handle types can share one.

use vstd::prelude::*;
use vstd::string::*;
use crate::api::handle::UObject;
use crate::api::ptr::Ptr;

verus! {

/// One step up the chain of outer objects: the outer object and its short
/// name, as the host reported them.
#[derive(Debug)]
pub struct OuterLink {
    pub object: UObject,
    pub name: String,
}

/// The qualified name of the object at `origin`, where `name` is what was
/// put together so far and `outers` are the outer objects still ahead,
/// nearest first. Each outer object puts its short name and a dot in front.
/// The walk ends with the chain, and it ends early at an outer object that is
/// the object itself.
pub open spec fn qualified_name(origin: usize, name: Seq<char>, outers: Seq<OuterLink>) -> Seq<
    char,
>
    decreases outers.len(),
{
    if outers.len() == 0 || outers[0].object.addr() == origin {
        name
    } else {
        qualified_name(origin, outers[0].name@ + seq!['.'] + name, outers.drop_first())
    }
}

/// The full name of the object at `origin`: its class's name, a space, and
/// its qualified name. An object whose class is not known has the empty full
/// name.
pub open spec fn full_name(
    origin: usize,
    class: Option<Seq<char>>,
    own: Seq<char>,
    outers: Seq<OuterLink>,
) -> Seq<char> {
    match class {
        None => Seq::empty(),
        Some(c) => c + seq![' '] + qualified_name(origin, own, outers),
    }
}

/// The walk up the chain of outer objects that puts an object's qualified
/// name together. The walk asks for no object itself: it is told each outer
/// object and says whether to go on.
#[derive(Debug)]
pub struct FullNameWalk {
    origin: usize,
    name: String,
}

impl FullNameWalk {
    /// The address of the object whose name is put together.
    pub closed spec fn origin(&self) -> usize {
        self.origin
    }

    /// The name as put together so far.
    pub closed spec fn name(&self) -> Seq<char> {
        self.name@
    }

    /// Starts the walk at the object at `origin` with the short name `own`.
    pub fn start(origin: usize, own: &str) -> (walk: Self)
        ensures
            walk.origin() == origin,
            walk.name() == own@,
    {
        FullNameWalk { origin, name: String::from_str(own) }
    }

    /// Tells whether the walk goes on to `outer`: it does unless there is no
    /// outer object or the outer object is the object itself.
    pub fn goes_on(&self, outer: &Option<UObject>) -> (yes: bool)
        ensures
            yes == (outer matches Some(o) && o.addr() != self.origin()),
    {
        match outer {
            Some(o) => o.to_ptr() != self.origin,
            None => false,
        }
    }

    /// Puts the short name of an outer object in front.
    pub fn enter(&mut self, outer_name: &str)
        ensures
            final(self).origin() == old(self).origin(),
            final(self).name() == outer_name@ + seq!['.'] + old(self).name(),
    {
        let longer = String::from_str(outer_name).concat(".").concat(self.name.as_str());
        proof {
            reveal_strlit(".");
            assert("."@ =~= seq!['.']);
        }
        self.name = longer;
    }

    /// Ends the walk: the class's name, a space, and the qualified name.
    pub fn finish(self, class_name: &str) -> (full: String)
        ensures
            full@ == class_name@ + seq![' '] + self.name(),
    {
        let full = String::from_str(class_name).concat(" ").concat(self.name.as_str());
        proof {
            reveal_strlit(" ");
            assert(" "@ =~= seq![' ']);
        }
        full
    }
}

/// Puts together the full name of the object at `origin` from what the host
/// reported: the name of its class if the class is known, its own short name,
/// and its outer objects, nearest first.
pub fn compose_full_name(
    origin: usize,
    class_name: Option<&str>,
    own_name: &str,
    outers: &Vec<OuterLink>,
) -> (name: String)
    ensures
        name@ == full_name(
            origin,
            match class_name {
                Some(c) => Some(c@),
                None => None,
            },
            own_name@,
            outers@,
        ),
{
    let class_name = match class_name {
        Some(c) => c,
        None => {
            return String::new();
        },
    };
    let mut walk = FullNameWalk::start(origin, own_name);
    let mut i: usize = 0;
    assert(outers@.skip(0) =~= outers@);
    while i < outers.len() && walk.goes_on(&Some(outers[i].object))
        invariant
            i <= outers@.len(),
            walk.origin() == origin,
            qualified_name(origin, own_name@, outers@) == qualified_name(
                origin,
                walk.name(),
                outers@.skip(i as int),
            ),
        decreases outers@.len() - i,
    {
        assert(outers@.skip(i as int).drop_first() =~= outers@.skip(i as int + 1));
        walk.enter(outers[i].name.as_str());
        i += 1;
    }
    walk.finish(class_name)
}

/// An object without an outer object is named by its class and its own short
/// name.
pub proof fn lemma_full_name_without_outer(origin: usize, class: Seq<char>, own: Seq<char>)
    ensures
        full_name(origin, Some(class), own, Seq::empty()) == class + seq![' '] + own,
{
}

/// An object whose outer object is itself is named by its class and its own
/// short name alone: the walk takes no step.
pub proof fn lemma_full_name_self_outer(
    origin: usize,
    class: Seq<char>,
    own: Seq<char>,
    outers: Seq<OuterLink>,
)
    requires
        outers.len() > 0,
        outers[0].object.addr() == origin,
    ensures
        full_name(origin, Some(class), own, outers) == class + seq![' '] + own,
{
}

/// An object inside `middle` inside `root` is named root first: the class, a
/// space, then the three short names with dots between them.
pub proof fn lemma_full_name_two_outers(
    origin: usize,
    class: Seq<char>,
    own: Seq<char>,
    middle: OuterLink,
    root: OuterLink,
)
    requires
        middle.object.addr() != origin,
        root.object.addr() != origin,
    ensures
        full_name(origin, Some(class), own, seq![middle, root]) == class + seq![' '] + (root.name@
            + seq!['.'] + (middle.name@ + seq!['.'] + own)),
{
    let outers = seq![middle, root];
    let inner = middle.name@ + seq!['.'] + own;
    assert(outers.drop_first() =~= seq![root]);
    assert(seq![root].drop_first() =~= Seq::<OuterLink>::empty());
    assert(qualified_name(origin, own, outers) == qualified_name(origin, inner, seq![root]));
    assert(qualified_name(origin, inner, seq![root]) == qualified_name(
        origin,
        root.name@ + seq!['.'] + inner,
        Seq::<OuterLink>::empty(),
    ));
}

/// An object whose class is not known has the empty full name.
pub proof fn lemma_full_name_without_class(origin: usize, own: Seq<char>, outers: Seq<OuterLink>)
    ensures
        full_name(origin, None, own, outers) == Seq::<char>::empty(),
{
}

/// The capability of objects.
pub trait RUObject: Ptr {
    /// The handle as the host's object functions take it.
    fn to_object_handle(&self) -> (handle: usize)
        ensures
            handle == self.addr(),
    {
        self.to_ptr()
    }

    /// The object's full name, put together from what the host reported of
    /// it: the name of its class if the class is known, its own short name,
    /// and its outer objects, nearest first.
    fn get_full_name(&self, class_name: Option<&str>, own_name: &str, outers: &Vec<OuterLink>) -> (name:
        String)
        ensures
            name@ == full_name(
                self.addr(),
                match class_name {
                    Some(c) => Some(c@),
                    None => None,
                },
                own_name@,
                outers@,
            ),
    {
        compose_full_name(self.to_ptr(), class_name, own_name, outers)
    }
}

/// The capability of fields: objects that are chained to a next field.
pub trait RUField: RUObject {
    /// The handle as the host's field functions take it.
    fn to_field_handle(&self) -> (handle: usize)
        ensures
            handle == self.addr(),
    {
        self.to_ptr()
    }
}

/// The capability of structs: fields with a super type, members and a
/// layout.
pub trait RUStruct: RUField {
    /// The handle as the host's struct functions take it.
    fn to_struct_handle(&self) -> (handle: usize)
        ensures
            handle == self.addr(),
    {
        self.to_ptr()
    }
}

/// The capability of the fields of the property family.
pub trait RFField: Ptr {
    /// The handle as the host's field functions take it.
    fn to_ffield_handle(&self) -> (handle: usize)
        ensures
            handle == self.addr(),
    {
        self.to_ptr()
    }
}

/// The capability of properties.
pub trait RFProperty: RFField {
    /// The handle as the host's property functions take it.
    fn to_fproperty_handle(&self) -> (handle: usize)
        ensures
            handle == self.addr(),
    {
        self.to_ptr()
    }
}

/// The capability of console objects.
pub trait RIConsoleObject: Ptr {
    /// The handle as the host's console functions take it.
    fn to_iconsole_handle(&self) -> (handle: usize)
        ensures
            handle == self.addr(),
    {
        self.to_ptr()
    }
}

} // verus!
