//! Each of the valid `Value` types of the IR.
//!
//! Types are interned in the [`Context`]: every distinct [`TypeContent`] is
//! stored once, and a [`Type`] is the key under which it is stored.  Two
//! calls that build the same content therefore give the same `Type`.
//!
//! A `Union` is a sum type which resembles a C union: each member uses the
//! same storage, and a union is equivalent to any of its member types.

use generational_arena::Arena;
use vstd::prelude::*;

use crate::ir::arena::{get_type_content, insert_type_content, new_type_arena, type_arena_items};
use crate::ir::function::{BlockContent, FunctionContent, ModuleContent, ValueContent};

verus! {

/// A handle to a type interned in a [`Context`].  It holds the raw parts of
/// the arena index under which the content is stored.
#[derive(Clone, Copy, Debug, PartialEq, Eq, Structural, Hash)]
pub struct Type {
    pub index: usize,
    pub generation: u64,
}

/// The content of an IR type.
#[derive(Debug)]
pub enum TypeContent {
    Unit,
    Bool,
    Uint(u8),
    B256,
    String(u64),
    Array(Type, u64),
    Union(Vec<Type>),
    Struct(Vec<Type>),
    Pointer(Type),
    Slice,
}

/// The mathematical shape of a [`TypeContent`]: aggregates as sequences.
pub enum TypeShape {
    Unit,
    Bool,
    Uint(u8),
    B256,
    String(u64),
    Array(Type, u64),
    Union(Seq<Type>),
    Struct(Seq<Type>),
    Pointer(Type),
    Slice,
}

impl View for TypeContent {
    type V = TypeShape;

    open spec fn view(&self) -> TypeShape {
        match self {
            TypeContent::Unit => TypeShape::Unit,
            TypeContent::Bool => TypeShape::Bool,
            TypeContent::Uint(w) => TypeShape::Uint(*w),
            TypeContent::B256 => TypeShape::B256,
            TypeContent::String(n) => TypeShape::String(*n),
            TypeContent::Array(t, n) => TypeShape::Array(*t, *n),
            TypeContent::Union(fs) => TypeShape::Union(fs@),
            TypeContent::Struct(fs) => TypeShape::Struct(fs@),
            TypeContent::Pointer(t) => TypeShape::Pointer(*t),
            TypeContent::Slice => TypeShape::Slice,
        }
    }
}

/// The types that a shape refers to directly.
pub open spec fn shape_components(s: TypeShape) -> Seq<Type> {
    match s {
        TypeShape::Array(t, _) => seq![t],
        TypeShape::Union(fs) => fs,
        TypeShape::Struct(fs) => fs,
        TypeShape::Pointer(t) => seq![t],
        _ => Seq::empty(),
    }
}

/// The IR context: the store of interned types.
pub struct Context {
    pub types: Arena<TypeContent>,
    pub type_map: Vec<(TypeContent, Type)>,
    /// The order in which the types were created; every component of a type
    /// was created before it.
    pub type_rank: Ghost<Map<Type, nat>>,
    pub next_rank: Ghost<nat>,
    pub values: Vec<ValueContent>,
    pub blocks: Vec<BlockContent>,
    pub functions: Vec<FunctionContent>,
    pub modules: Vec<ModuleContent>,
}

impl Type {
    pub open spec fn key(self) -> (usize, u64) {
        (self.index, self.generation)
    }
}

impl Context {
    /// The interned types and their shapes.
    pub closed spec fn type_view(&self) -> Map<Type, TypeShape> {
        Map::new(
            |t: Type| type_arena_items(self.types).dom().contains(t.key()),
            |t: Type| type_arena_items(self.types)[t.key()]@,
        )
    }

    pub open spec fn has_type(&self, t: Type) -> bool {
        self.type_view().dom().contains(t)
    }

    pub open spec fn content(&self, t: Type) -> TypeShape {
        self.type_view()[t]
    }

    pub closed spec fn rank(&self, t: Type) -> nat {
        self.type_rank@[t]
    }

    /// The invariant of the type store: components are interned before the
    /// types that use them, no shape is interned twice, and the lookup table
    /// lists exactly the interned types.
    pub closed spec fn types_wf(&self) -> bool {
        &&& forall|t: Type| #[trigger]
            self.has_type(t) ==> {
                &&& self.type_rank@.dom().contains(t)
                &&& self.type_rank@[t] < self.next_rank@
                &&& forall|i: int|
                    0 <= i < shape_components(self.content(t)).len() ==> {
                        &&& self.has_type(#[trigger] shape_components(self.content(t))[i])
                        &&& self.type_rank@[shape_components(self.content(t))[i]]
                            < self.type_rank@[t]
                    }
            }
        &&& forall|t1: Type, t2: Type|
            #![trigger self.has_type(t1), self.has_type(t2)]
            self.has_type(t1) && self.has_type(t2) && self.content(t1) == self.content(t2) ==> t1
                == t2
        &&& forall|i: int|
            0 <= i < self.type_map@.len() ==> {
                &&& self.has_type(#[trigger] self.type_map@[i].1)
                &&& self.content(self.type_map@[i].1) == self.type_map@[i].0@
            }
        &&& forall|t: Type| #[trigger]
            self.has_type(t) ==> exists|i: int|
                0 <= i < self.type_map@.len() && #[trigger] self.type_map@[i].1 == t
    }

    /// Whether every type that `s` refers to is interned.
    pub open spec fn shape_is_closed(&self, s: TypeShape) -> bool {
        forall|i: int| 0 <= i < shape_components(s).len() ==> self.has_type(#[trigger] shape_components(s)[i])
    }

    /// A context with no types.
    pub fn new() -> (ctx: Context)
        ensures
            ctx.types_wf(),
            forall|t: Type| !ctx.has_type(t),
            ctx.ir_wf(),
            ctx.ir_empty(),
    {
        let ctx = Context {
            types: new_type_arena(),
            type_map: Vec::new(),
            type_rank: Ghost(Map::empty()),
            next_rank: Ghost(0),
            values: Vec::new(),
            blocks: Vec::new(),
            functions: Vec::new(),
            modules: Vec::new(),
        };
        ctx
    }

    pub proof fn lemma_components_interned(&self, t: Type)
        requires
            self.types_wf(),
            self.has_type(t),
        ensures
            self.shape_is_closed(self.content(t)),
            forall|i: int|
                0 <= i < shape_components(self.content(t)).len() ==> self.rank(
                    #[trigger] shape_components(self.content(t))[i],
                ) < self.rank(t),
    {
        assert forall|i: int| 0 <= i < shape_components(self.content(t)).len() implies self.has_type(
            #[trigger] shape_components(self.content(t))[i],
        ) by {
            assert(self.has_type(shape_components(self.content(t))[i]));
        }
    }
}

impl Context {
    /// Whether `self` holds every type that `old` holds, with the same shape
    /// and creation order.
    pub open spec fn extends_types(&self, old: &Context) -> bool {
        &&& forall|u: Type| #[trigger]
            old.has_type(u) ==> self.has_type(u) && self.content(u) == old.content(u) && self.rank(u)
                == old.rank(u)
    }

    /// The values, blocks, functions and modules of `self` are those of `old`.
    pub open spec fn same_ir(&self, old: &Context) -> bool {
        &&& self.values == old.values
        &&& self.blocks == old.blocks
        &&& self.functions == old.functions
        &&& self.modules == old.modules
    }

    /// The type store of `self` is that of `old`.
    pub open spec fn same_type_store(&self, old: &Context) -> bool {
        &&& self.types == old.types
        &&& self.type_map == old.type_map
        &&& self.type_rank == old.type_rank
        &&& self.next_rank == old.next_rank
    }

    pub proof fn lemma_same_type_store(&self, old: &Context)
        requires
            self.same_type_store(old),
        ensures
            self.type_view() == old.type_view(),
            old.types_wf() ==> self.types_wf(),
            self.extends_types(old),
    {
        assert(self.type_view() =~= old.type_view());
        assert(self.type_map@ == old.type_map@);
        assert(self.type_rank@ == old.type_rank@);
        assert(self.next_rank@ == old.next_rank@);
        if old.types_wf() {
            assert forall|t: Type| #[trigger] self.has_type(t) implies exists|i: int|
                0 <= i < self.type_map@.len() && #[trigger] self.type_map@[i].1 == t by {
                assert(old.has_type(t));
            }
        }
    }

    /// The interned type of the given shape, if any.
    fn lookup_type(&self, t: &TypeContent) -> (res: Option<Type>)
        requires
            self.types_wf(),
        ensures
            res matches Some(u) ==> self.has_type(u) && self.content(u) == t@,
            res is None ==> forall|u: Type| #[trigger] self.has_type(u) ==> self.content(u) != t@,
    {
        let mut i: usize = 0;
        while i < self.type_map.len()
            invariant
                self.types_wf(),
                0 <= i <= self.type_map@.len(),
                forall|j: int| 0 <= j < i ==> (#[trigger] self.type_map@[j]).0@ != t@,
            decreases self.type_map@.len() - i,
        {
            if self.type_map[i].0.same_content(t) {
                assert(self.has_type(self.type_map@[i as int].1));
                return Some(self.type_map[i].1);
            }
            i = i + 1;
        }
        assert forall|u: Type| #[trigger] self.has_type(u) implies self.content(u) != t@ by {
            let j = choose|j: int| 0 <= j < self.type_map@.len() && #[trigger] self.type_map@[j].1 == u;
            assert(self.content(self.type_map@[j].1) == self.type_map@[j].0@);
        }
        None
    }
}

impl Type {
    /// The type of the given content, interned in `context`: the existing
    /// type of that shape if there is one, else a new one.  The types that
    /// the content names (of an array's elements, an aggregate's fields, a
    /// pointer's target) must be types of `context`: a type that is not
    /// there has no content to read, and reading it fails.  Every type made
    /// through `context` is one of its types.
    pub fn get_or_create_unique_type(context: &mut Context, t: TypeContent) -> (res: Type)
        requires
            old(context).types_wf(),
            old(context).shape_is_closed(t@),
        ensures
            final(context).interns(old(context), res, t@),
            final(context).types_wf(),
            final(context).same_ir(old(context)),
            final(context).has_type(res),
            final(context).content(res) == t@,
            final(context).extends_types(old(context)),
            forall|u: Type| #[trigger] final(context).has_type(u) ==> old(context).has_type(u) || u == res,
            old(context).has_type(res) ==> final(context).type_view() == old(context).type_view(),
            (exists|u: Type| #[trigger] old(context).has_type(u) && old(context).content(u) == t@)
                ==> old(context).has_type(res),
    {
        match context.lookup_type(&t) {
            Some(found) => {
                assert(final(context).extends_types(old(context)));
                found
            },
            None => {
                let ghost old_view = context.type_view();
                let ghost old_rank = context.type_rank@;
                let ghost old_next = context.next_rank@;
                let ghost old_map = context.type_map@;
                let dup = t.duplicate();
                let key = insert_type_content(&mut context.types, dup);
                let new_type = Type { index: key.0, generation: key.1 };
                context.type_map.push((t, new_type));
                proof {
                    context.type_rank = Ghost(old_rank.insert(new_type, old_next));
                    context.next_rank = Ghost(old_next + 1);
                    assert(!old_view.dom().contains(new_type));
                    assert(context.type_view() =~= old_view.insert(new_type, t@));
                    assert forall|u: Type| #[trigger] context.has_type(u) implies {
                        &&& context.type_rank@.dom().contains(u)
                        &&& context.type_rank@[u] < context.next_rank@
                        &&& forall|i: int|
                            0 <= i < shape_components(context.content(u)).len() ==> {
                                &&& context.has_type(
                                    #[trigger] shape_components(context.content(u))[i],
                                )
                                &&& context.type_rank@[shape_components(context.content(u))[i]]
                                    < context.type_rank@[u]
                            }
                    } by {
                        if u != new_type {
                            assert(old_view.dom().contains(u));
                            assert(old(context).has_type(u));
                            assert(old_rank.dom().contains(u));
                            assert(old_rank[u] < old_next);
                            assert forall|i: int|
                                0 <= i < shape_components(context.content(u)).len() implies {
                                &&& context.has_type(
                                    #[trigger] shape_components(context.content(u))[i],
                                )
                                &&& context.type_rank@[shape_components(context.content(u))[i]]
                                    < context.type_rank@[u]
                            } by {
                                assert(old(context).has_type(u));
                                assert(context.content(u) == old(context).content(u));
                                let c = shape_components(old(context).content(u))[i];
                                assert(old(context).has_type(c));
                                assert(old_view.dom().contains(c));
                                assert(c != new_type);
                            }
                        } else {
                            assert forall|i: int|
                                0 <= i < shape_components(context.content(u)).len() implies {
                                &&& context.has_type(
                                    #[trigger] shape_components(context.content(u))[i],
                                )
                                &&& context.type_rank@[shape_components(context.content(u))[i]]
                                    < context.type_rank@[u]
                            } by {
                                assert(context.content(u) == t@);
                                let c = shape_components(t@)[i];
                                assert(old(context).has_type(c));
                                assert(old_view.dom().contains(c));
                                assert(c != new_type);
                            }
                        }
                    }
                    assert forall|i: int| 0 <= i < context.type_map@.len() implies {
                        &&& context.has_type(#[trigger] context.type_map@[i].1)
                        &&& context.content(context.type_map@[i].1) == context.type_map@[i].0@
                    } by {
                        if i < old_map.len() {
                            assert(context.type_map@[i] == old_map[i]);
                        }
                    }
                    assert forall|u: Type| #[trigger] context.has_type(u) implies exists|i: int|
                        0 <= i < context.type_map@.len() && #[trigger] context.type_map@[i].1 == u by {
                        if u == new_type {
                            assert(context.type_map@[old_map.len() as int].1 == u);
                        } else {
                            assert(old_view.dom().contains(u));
                            assert(old(context).has_type(u));
                            let j = choose|j: int| 0 <= j < old_map.len() && #[trigger] old_map[j].1 == u;
                            assert(context.type_map@[j].1 == u);
                        }
                    }
                }
                new_type
            },
        }
    }
}

impl Context {
    /// `self` is `old` with the type `res` of shape `s` interned: `res` is the
    /// existing type of that shape when there is one, and nothing else
    /// changes.
    pub open spec fn interns(&self, old: &Context, res: Type, s: TypeShape) -> bool {
        &&& self.types_wf()
        &&& self.same_ir(old)
        &&& self.has_type(res)
        &&& self.content(res) == s
        &&& self.extends_types(old)
        &&& forall|u: Type| #[trigger] self.has_type(u) ==> old.has_type(u) || u == res
        &&& old.has_type(res) ==> self.type_view() == old.type_view()
        &&& (exists|u: Type| #[trigger] old.has_type(u) && old.content(u) == s) ==> old.has_type(res)
    }
}

/// In a well-formed context each shape is interned once: two types with the
/// same content are the same type.
pub proof fn lemma_interned_once(context: &Context, t1: Type, t2: Type)
    requires
        context.types_wf(),
        context.has_type(t1),
        context.has_type(t2),
        context.content(t1) == context.content(t2),
    ensures
        t1 == t2,
{
}

/// Interning a shape a second time gives back the type it was interned as
/// the first time, and adds no type: `middle` is `start` with `first`
/// interned for `s`, and `end` is `middle` with `second` interned for `s`.
pub proof fn lemma_intern_twice(start: &Context, middle: &Context, end: &Context, s: TypeShape, first: Type, second: Type)
    requires
        middle.interns(start, first, s),
        end.interns(middle, second, s),
    ensures
        second == first,
        end.type_view() == middle.type_view(),
{
    assert(middle.has_type(first) && middle.content(first) == s);
    assert(middle.has_type(second));
    lemma_interned_once(middle, first, second);
}

impl Type {
    /// Get the content for this Type.
    pub fn get_content<'a>(&self, context: &'a Context) -> (res: &'a TypeContent)
        requires
            context.has_type(*self),
        ensures
            res@ == context.content(*self),
    {
        get_type_content(&context.types, (self.index, self.generation)).unwrap()
    }

    /// New unit type
    pub fn new_unit(context: &mut Context) -> (res: Type)
        requires
            old(context).types_wf(),
        ensures
            final(context).interns(old(context), res, TypeShape::Unit),
    {
        Self::get_or_create_unique_type(context, TypeContent::Unit)
    }

    /// New bool type
    pub fn new_bool(context: &mut Context) -> (res: Type)
        requires
            old(context).types_wf(),
        ensures
            final(context).interns(old(context), res, TypeShape::Bool),
    {
        Self::get_or_create_unique_type(context, TypeContent::Bool)
    }

    /// New unsigned integer type
    pub fn new_uint(context: &mut Context, width: u8) -> (res: Type)
        requires
            old(context).types_wf(),
        ensures
            final(context).interns(old(context), res, TypeShape::Uint(width)),
    {
        Self::get_or_create_unique_type(context, TypeContent::Uint(width))
    }

    /// Get B256 type
    pub fn new_b256(context: &mut Context) -> (res: Type)
        requires
            old(context).types_wf(),
        ensures
            final(context).interns(old(context), res, TypeShape::B256),
    {
        Self::get_or_create_unique_type(context, TypeContent::B256)
    }

    /// Get string type
    pub fn new_string(context: &mut Context, len: u64) -> (res: Type)
        requires
            old(context).types_wf(),
        ensures
            final(context).interns(old(context), res, TypeShape::String(len)),
    {
        Self::get_or_create_unique_type(context, TypeContent::String(len))
    }

    /// Get array type
    pub fn new_array(context: &mut Context, elm_ty: Type, len: u64) -> (res: Type)
        requires
            old(context).types_wf(),
            old(context).has_type(elm_ty),
        ensures
            final(context).interns(old(context), res, TypeShape::Array(elm_ty, len)),
    {
        Self::get_or_create_unique_type(context, TypeContent::Array(elm_ty, len))
    }

    /// Get union type
    pub fn new_union(context: &mut Context, fields: Vec<Type>) -> (res: Type)
        requires
            old(context).types_wf(),
            forall|i: int| 0 <= i < fields@.len() ==> old(context).has_type(#[trigger] fields@[i]),
        ensures
            final(context).interns(old(context), res, TypeShape::Union(fields@)),
    {
        Self::get_or_create_unique_type(context, TypeContent::Union(fields))
    }

    /// Get struct type
    pub fn new_struct(context: &mut Context, fields: Vec<Type>) -> (res: Type)
        requires
            old(context).types_wf(),
            forall|i: int| 0 <= i < fields@.len() ==> old(context).has_type(#[trigger] fields@[i]),
        ensures
            final(context).interns(old(context), res, TypeShape::Struct(fields@)),
    {
        Self::get_or_create_unique_type(context, TypeContent::Struct(fields))
    }

    /// Get pointer type
    pub fn new_pointer(context: &mut Context, pointee_ty: Type) -> (res: Type)
        requires
            old(context).types_wf(),
            old(context).has_type(pointee_ty),
        ensures
            final(context).interns(old(context), res, TypeShape::Pointer(pointee_ty)),
    {
        Self::get_or_create_unique_type(context, TypeContent::Pointer(pointee_ty))
    }

    /// Get slice type
    pub fn new_slice(context: &mut Context) -> (res: Type)
        requires
            old(context).types_wf(),
        ensures
            final(context).interns(old(context), res, TypeShape::Slice),
    {
        Self::get_or_create_unique_type(context, TypeContent::Slice)
    }

    /// Return whether this is a 'copy' type, one whose value will always fit in a register.
    pub fn is_copy_type(&self, context: &Context) -> (res: bool)
        requires
            context.has_type(*self),
        ensures
            res == (context.content(*self) is Unit || context.content(*self) is Bool
                || context.content(*self) is Uint || context.content(*self) is Pointer),
    {
        matches!(
            *self.get_content(context),
            TypeContent::Unit | TypeContent::Bool | TypeContent::Uint(_) | TypeContent::Pointer(_)
        )
    }

    pub fn strip_ptr_type(&self, context: &Context) -> (res: Type)
        requires
            context.has_type(*self),
        ensures
            res == (match context.content(*self) {
                TypeShape::Pointer(p) => p,
                _ => *self,
            }),
    {
        if let TypeContent::Pointer(pointee_ty) = *self.get_content(context) {
            pointee_ty
        } else {
            *self
        }
    }

    /// Gets the inner pointer type if its a pointer.
    pub fn get_inner_ptr_type(&self, context: &Context) -> (res: Option<Type>)
        requires
            context.has_type(*self),
        ensures
            res == (match context.content(*self) {
                TypeShape::Pointer(p) => Some(p),
                _ => None,
            }),
    {
        match *self.get_content(context) {
            TypeContent::Pointer(pointee_typ) => Some(pointee_typ),
            _ => None,
        }
    }

    /// Is unit type
    pub fn is_unit(&self, context: &Context) -> (res: bool)
        requires
            context.has_type(*self),
        ensures
            res == context.content(*self) is Unit,
    {
        matches!(*self.get_content(context), TypeContent::Unit)
    }

    /// Is bool type
    pub fn is_bool(&self, context: &Context) -> (res: bool)
        requires
            context.has_type(*self),
        ensures
            res == context.content(*self) is Bool,
    {
        matches!(*self.get_content(context), TypeContent::Bool)
    }

    /// Is unsigned integer type
    pub fn is_uint(&self, context: &Context) -> (res: bool)
        requires
            context.has_type(*self),
        ensures
            res == context.content(*self) is Uint,
    {
        matches!(*self.get_content(context), TypeContent::Uint(_))
    }

    /// Is unsigned integer type of specific width
    pub fn is_uint_of(&self, context: &Context, width: u8) -> (res: bool)
        requires
            context.has_type(*self),
        ensures
            res == (context.content(*self) == TypeShape::Uint(width)),
    {
        match *self.get_content(context) {
            TypeContent::Uint(width_) => width == width_,
            _ => false,
        }
    }

    /// Is B256 type
    pub fn is_b256(&self, context: &Context) -> (res: bool)
        requires
            context.has_type(*self),
        ensures
            res == context.content(*self) is B256,
    {
        matches!(*self.get_content(context), TypeContent::B256)
    }

    /// Is string type
    pub fn is_string(&self, context: &Context) -> (res: bool)
        requires
            context.has_type(*self),
        ensures
            res == context.content(*self) is String,
    {
        matches!(*self.get_content(context), TypeContent::String(_))
    }

    /// Is array type
    pub fn is_array(&self, context: &Context) -> (res: bool)
        requires
            context.has_type(*self),
        ensures
            res == context.content(*self) is Array,
    {
        matches!(*self.get_content(context), TypeContent::Array(..))
    }

    /// Is union type
    pub fn is_union(&self, context: &Context) -> (res: bool)
        requires
            context.has_type(*self),
        ensures
            res == context.content(*self) is Union,
    {
        matches!(*self.get_content(context), TypeContent::Union(_))
    }

    /// Is struct type
    pub fn is_struct(&self, context: &Context) -> (res: bool)
        requires
            context.has_type(*self),
        ensures
            res == context.content(*self) is Struct,
    {
        matches!(*self.get_content(context), TypeContent::Struct(_))
    }

    /// Returns true if this is a pointer type.
    pub fn is_ptr_type(&self, context: &Context) -> (res: bool)
        requires
            context.has_type(*self),
        ensures
            res == context.content(*self) is Pointer,
    {
        matches!(*self.get_content(context), TypeContent::Pointer(_))
    }

    /// Returns true if this is a slice type.
    pub fn is_slice(&self, context: &Context) -> (res: bool)
        requires
            context.has_type(*self),
        ensures
            res == context.content(*self) is Slice,
    {
        matches!(*self.get_content(context), TypeContent::Slice)
    }
}

/// The type of field `idx` of an aggregate shape, if it has one.
pub open spec fn shape_field(s: TypeShape, idx: u64) -> Option<Type> {
    match s {
        TypeShape::Struct(fs) => if (idx as usize) < fs.len() { Some(fs[(idx as usize) as int]) } else { None },
        TypeShape::Union(fs) => if (idx as usize) < fs.len() { Some(fs[(idx as usize) as int]) } else { None },
        _ => None,
    }
}

/// The element type of an array shape.
pub open spec fn shape_elem(s: TypeShape) -> Option<Type> {
    match s {
        TypeShape::Array(t, _) => Some(t),
        _ => None,
    }
}

impl Context {
    /// One step of indexing into a type: a field of an aggregate, else the
    /// element of an array.
    pub open spec fn index_step(&self, ty: Option<Type>, idx: u64) -> Option<Type> {
        match ty {
            None => None,
            Some(t) => match shape_field(self.content(t), idx) {
                Some(f) => Some(f),
                None => shape_elem(self.content(t)),
            },
        }
    }

    /// Indexing into `ty` by each of `indices` in turn.
    pub open spec fn index_path(&self, ty: Option<Type>, indices: Seq<u64>) -> Option<Type>
        decreases indices.len(),
    {
        if indices.len() == 0 {
            ty
        } else {
            self.index_step(self.index_path(ty, indices.drop_last()), indices.last())
        }
    }
}

impl Type {
    /// What's the type of the struct value indexed by indices.
    pub fn get_indexed_type(&self, context: &Context, indices: &[u64]) -> (res: Option<Type>)
        requires
            context.types_wf(),
            context.has_type(*self),
        ensures
            res == (if indices@.len() == 0 {
                None
            } else {
                context.index_path(Some(*self), indices@)
            }),
    {
        if indices.len() == 0 {
            return None;
        }
        let mut ty: Option<Type> = Some(*self);
        let mut i: usize = 0;
        while i < indices.len()
            invariant
                context.types_wf(),
                0 <= i <= indices@.len(),
                ty == context.index_path(Some(*self), indices@.subrange(0, i as int)),
                ty matches Some(t) ==> context.has_type(t),
            decreases indices@.len() - i,
        {
            proof {
                assert(indices@.subrange(0, i + 1).drop_last() =~= indices@.subrange(0, i as int));
            }
            ty = match ty {
                None => None,
                Some(t) => {
                    proof {
                        context.lemma_components_interned(t);
                    }
                    match t.get_field_type(context, indices[i]) {
                        Some(f) => {
                            assert(f == shape_components(context.content(t))[(indices[i as int] as usize) as int]);
                            Some(f)
                        },
                        None => {
                            let e = t.get_array_elem_type(context);
                            if e.is_some() {
                                assert(e.unwrap() == shape_components(context.content(t))[0]);
                            }
                            e
                        },
                    }
                },
            };
            i = i + 1;
        }
        assert(indices@.subrange(0, indices@.len() as int) =~= indices@);
        ty
    }

    pub fn get_field_type(&self, context: &Context, idx: u64) -> (res: Option<Type>)
        requires
            context.has_type(*self),
        ensures
            res == shape_field(context.content(*self), idx),
    {
        match self.get_content(context) {
            TypeContent::Struct(agg) | TypeContent::Union(agg) => {
                let i = idx as usize;
                if i < agg.len() {
                    Some(agg[i])
                } else {
                    None
                }
            },
            _ => None,
        }
    }

    /// Get the type of the array element, if applicable.
    pub fn get_array_elem_type(&self, context: &Context) -> (res: Option<Type>)
        requires
            context.has_type(*self),
        ensures
            res == shape_elem(context.content(*self)),
    {
        if let TypeContent::Array(ty, _) = *self.get_content(context) {
            Some(ty)
        } else {
            None
        }
    }

    /// Get the length of the array, if applicable.
    pub fn get_array_len(&self, context: &Context) -> (res: Option<u64>)
        requires
            context.has_type(*self),
        ensures
            res == (match context.content(*self) {
                TypeShape::Array(_, n) => Some(n),
                _ => None,
            }),
    {
        if let TypeContent::Array(_, n) = *self.get_content(context) {
            Some(n)
        } else {
            None
        }
    }

    /// The field types of a struct or union, in order; none for other types.
    pub fn field_iter(&self, context: &Context) -> (res: Vec<Type>)
        requires
            context.has_type(*self),
        ensures
            res@ == (match context.content(*self) {
                TypeShape::Struct(fs) => fs,
                TypeShape::Union(fs) => fs,
                _ => Seq::empty(),
            }),
    {
        match self.get_content(context) {
            TypeContent::Struct(fields) | TypeContent::Union(fields) => copy_types(fields),
            _ => Vec::new(),
        }
    }
}

impl Context {
    /// The measure of a pair of types under comparison: the sum of their
    /// creation ranks, then whether a non-union is being compared to a union.
    pub closed spec fn equiv_flag(&self, a: Type, b: Type) -> nat {
        if self.content(b) is Union && !(self.content(a) is Union) {
            1
        } else {
            0
        }
    }

    /// Type equivalence: structural equality, except that a union is
    /// equivalent to any of its member types.
    pub closed spec fn types_equiv(&self, a: Type, b: Type) -> bool
        decreases self.rank(a) + self.rank(b), self.equiv_flag(a, b),
        when self.types_wf() && self.has_type(a) && self.has_type(b)
    {
        proof {
            self.lemma_components_interned(a);
            self.lemma_components_interned(b);
        }
        match (self.content(a), self.content(b)) {
            (TypeShape::Unit, TypeShape::Unit) => true,
            (TypeShape::Bool, TypeShape::Bool) => true,
            (TypeShape::Uint(l), TypeShape::Uint(r)) => l == r,
            (TypeShape::B256, TypeShape::B256) => true,
            (TypeShape::String(l), TypeShape::String(r)) => l == r,
            (TypeShape::Array(l, llen), TypeShape::Array(r, rlen)) => {
                proof {
                    assert(shape_components(self.content(a))[0] == l);
                    assert(shape_components(self.content(b))[0] == r);
                }
                llen == rlen && self.types_equiv(l, r)
            },
            (TypeShape::Struct(l), TypeShape::Struct(r)) => {
                l.len() == r.len() && forall|i: int|
                    0 <= i < l.len() ==> {
                        proof {
                            assert(shape_components(self.content(a))[i] == l[i]);
                            assert(shape_components(self.content(b))[i] == r[i]);
                        }
                        self.types_equiv(l[i], r[i])
                    }
            },
            (TypeShape::Union(l), TypeShape::Union(r)) => {
                l.len() == r.len() && forall|i: int|
                    0 <= i < l.len() ==> {
                        proof {
                            assert(shape_components(self.content(a))[i] == l[i]);
                            assert(shape_components(self.content(b))[i] == r[i]);
                        }
                        self.types_equiv(l[i], r[i])
                    }
            },
            (_, TypeShape::Union(_)) => self.types_equiv(b, a),
            (TypeShape::Union(l), _) => exists|i: int|
                0 <= i < l.len() && {
                    proof {
                        assert(shape_components(self.content(a))[i] == l[i]);
                    }
                    self.types_equiv(b, l[i])
                },
            (TypeShape::Pointer(l), TypeShape::Pointer(r)) => {
                proof {
                    assert(shape_components(self.content(a))[0] == l);
                    assert(shape_components(self.content(b))[0] == r);
                }
                self.types_equiv(l, r)
            },
            (TypeShape::Slice, TypeShape::Slice) => true,
            _ => false,
        }
    }
}

impl Type {
    /// Compare a type to this one for equivalence.
    /// `==` on `Type` does not take into account the special case for unions:
    /// a union is equivalent to any of its variant types.
    pub fn eq(&self, context: &Context, other: &Type) -> (res: bool)
        requires
            context.types_wf(),
            context.has_type(*self),
            context.has_type(*other),
        ensures
            res == context.types_equiv(*self, *other),
        decreases context.rank(*self) + context.rank(*other), context.equiv_flag(*self, *other), 1nat,
    {
        proof {
            context.lemma_components_interned(*self);
            context.lemma_components_interned(*other);
        }
        let a = *self;
        let b = *other;
        match (self.get_content(context), other.get_content(context)) {
            (TypeContent::Unit, TypeContent::Unit) => true,
            (TypeContent::Bool, TypeContent::Bool) => true,
            (TypeContent::Uint(l), TypeContent::Uint(r)) => *l == *r,
            (TypeContent::B256, TypeContent::B256) => true,
            (TypeContent::String(l), TypeContent::String(r)) => *l == *r,
            (TypeContent::Array(l, llen), TypeContent::Array(r, rlen)) => {
                assert(shape_components(context.content(a))[0] == *l);
                assert(shape_components(context.content(b))[0] == *r);
                *llen == *rlen && l.eq(context, r)
            },
            (TypeContent::Struct(l), TypeContent::Struct(r)) => {
                all_equiv(context, a, b, l, r)
            },
            (TypeContent::Union(l), TypeContent::Union(r)) => {
                all_equiv(context, a, b, l, r)
            },
            (_, TypeContent::Union(_)) => other.eq(context, self),
            (TypeContent::Union(l), _) => {
                let mut i: usize = 0;
                while i < l.len()
                    invariant
                        context.types_wf(),
                        a == *self,
                        b == *other,
                        context.has_type(a),
                        context.has_type(b),
                        context.content(a) == TypeShape::Union(l@),
                        !(context.content(b) is Union),
                        0 <= i <= l@.len(),
                        forall|j: int| 0 <= j < l@.len() ==> context.has_type(#[trigger] l@[j]) && context.rank(l@[j]) < context.rank(a),
                        forall|j: int| 0 <= j < i ==> !context.types_equiv(b, #[trigger] l@[j]),
                    decreases l@.len() - i,
                {
                    assert(shape_components(context.content(a))[i as int] == l@[i as int]);
                    if b.eq(context, &l[i]) {
                        return true;
                    }
                    i = i + 1;
                }
                false
            },
            (TypeContent::Pointer(l), TypeContent::Pointer(r)) => {
                assert(shape_components(context.content(a))[0] == *l);
                assert(shape_components(context.content(b))[0] == *r);
                l.eq(context, r)
            },
            (TypeContent::Slice, TypeContent::Slice) => true,
            _ => false,
        }
    }
}

/// Pairwise equivalence of the members of two aggregates, in order.
fn all_equiv(context: &Context, a: Type, b: Type, l: &Vec<Type>, r: &Vec<Type>) -> (res: bool)
    requires
        context.types_wf(),
        context.has_type(a),
        context.has_type(b),
        shape_components(context.content(a)) == l@,
        shape_components(context.content(b)) == r@,
    ensures
        res == (l@.len() == r@.len() && forall|i: int|
            0 <= i < l@.len() ==> context.types_equiv(l@[i], r@[i])),
    decreases context.rank(a) + context.rank(b), 0nat, 0nat,
{
    proof {
        context.lemma_components_interned(a);
        context.lemma_components_interned(b);
    }
    if l.len() != r.len() {
        return false;
    }
    let mut i: usize = 0;
    while i < l.len()
        invariant
            context.types_wf(),
            l@.len() == r@.len(),
            0 <= i <= l@.len(),
            forall|j: int| 0 <= j < l@.len() ==> context.has_type(#[trigger] l@[j]) && context.rank(l@[j]) < context.rank(a),
            forall|j: int| 0 <= j < r@.len() ==> context.has_type(#[trigger] r@[j]) && context.rank(r@[j]) < context.rank(b),
            forall|j: int| 0 <= j < i ==> context.types_equiv(#[trigger] l@[j], r@[j]),
        decreases l@.len() - i,
    {
        if !l[i].eq(context, &r[i]) {
            return false;
        }
        i = i + 1;
    }
    true
}

/// Type equivalence, one level at a time: equal kinds compare their
/// components, a union is equivalent to a type that is equivalent to one of
/// its members, and types of different kinds are not equivalent.
pub proof fn lemma_types_equiv_unfold(context: &Context, a: Type, b: Type)
    requires
        context.types_wf(),
        context.has_type(a),
        context.has_type(b),
    ensures
        context.types_equiv(a, b) == match (context.content(a), context.content(b)) {
            (TypeShape::Unit, TypeShape::Unit) => true,
            (TypeShape::Bool, TypeShape::Bool) => true,
            (TypeShape::Uint(l), TypeShape::Uint(r)) => l == r,
            (TypeShape::B256, TypeShape::B256) => true,
            (TypeShape::String(l), TypeShape::String(r)) => l == r,
            (TypeShape::Array(l, llen), TypeShape::Array(r, rlen)) => llen == rlen && context.types_equiv(l, r),
            (TypeShape::Struct(l), TypeShape::Struct(r)) => l.len() == r.len() && forall|i: int|
                0 <= i < l.len() ==> context.types_equiv(#[trigger] l[i], r[i]),
            (TypeShape::Union(l), TypeShape::Union(r)) => l.len() == r.len() && forall|i: int|
                0 <= i < l.len() ==> context.types_equiv(#[trigger] l[i], r[i]),
            (_, TypeShape::Union(_)) => context.types_equiv(b, a),
            (TypeShape::Union(l), _) => exists|i: int| 0 <= i < l.len() && context.types_equiv(b, #[trigger] l[i]),
            (TypeShape::Pointer(l), TypeShape::Pointer(r)) => context.types_equiv(l, r),
            (TypeShape::Slice, TypeShape::Slice) => true,
            _ => false,
        },
{
    context.lemma_components_interned(a);
    context.lemma_components_interned(b);
    match (context.content(a), context.content(b)) {
        (TypeShape::Array(l, _), TypeShape::Array(r, _)) | (TypeShape::Pointer(l), TypeShape::Pointer(r)) => {
            assert(shape_components(context.content(a))[0] == l);
            assert(shape_components(context.content(b))[0] == r);
        },
        (TypeShape::Struct(l), TypeShape::Struct(r)) | (TypeShape::Union(l), TypeShape::Union(r)) => {
            assert forall|i: int| 0 <= i < l.len() && i < r.len() implies context.has_type(#[trigger] l[i])
                && context.has_type(r[i]) by {
                assert(shape_components(context.content(a))[i] == l[i]);
                assert(shape_components(context.content(b))[i] == r[i]);
            }
        },
        (TypeShape::Union(l), _) => {
            assert forall|i: int| 0 <= i < l.len() implies context.has_type(#[trigger] l[i]) by {
                assert(shape_components(context.content(a))[i] == l[i]);
            }
        },
        _ => {},
    }
}

/// Every interned type is equivalent to itself.
pub proof fn lemma_types_equiv_reflexive(context: &Context, t: Type)
    requires
        context.types_wf(),
        context.has_type(t),
    ensures
        context.types_equiv(t, t),
    decreases context.rank(t),
{
    context.lemma_components_interned(t);
    match context.content(t) {
        TypeShape::Array(l, _) => {
            assert(shape_components(context.content(t))[0] == l);
            lemma_types_equiv_reflexive(context, l);
        },
        TypeShape::Pointer(l) => {
            assert(shape_components(context.content(t))[0] == l);
            lemma_types_equiv_reflexive(context, l);
        },
        TypeShape::Struct(l) | TypeShape::Union(l) => {
            assert forall|i: int| 0 <= i < l.len() implies context.types_equiv(l[i], l[i]) by {
                assert(shape_components(context.content(t))[i] == l[i]);
                lemma_types_equiv_reflexive(context, l[i]);
            }
        },
        _ => {},
    }
}

/// A union is equivalent to each of its members that is not itself a
/// union, in either order.
pub proof fn lemma_union_equiv_member(context: &Context, u: Type, i: int)
    requires
        context.types_wf(),
        context.has_type(u),
        context.content(u) is Union,
        0 <= i < shape_components(context.content(u)).len(),
        !(context.content(shape_components(context.content(u))[i]) is Union),
    ensures
        context.types_equiv(u, shape_components(context.content(u))[i]),
        context.types_equiv(shape_components(context.content(u))[i], u),
{
    context.lemma_components_interned(u);
    let m = shape_components(context.content(u))[i];
    lemma_types_equiv_reflexive(context, m);
    lemma_types_equiv_symmetric(context, u, m);
}

/// Type equivalence is symmetric, unions included.
pub proof fn lemma_types_equiv_symmetric(context: &Context, a: Type, b: Type)
    requires
        context.types_wf(),
        context.has_type(a),
        context.has_type(b),
    ensures
        context.types_equiv(a, b) == context.types_equiv(b, a),
    decreases context.rank(a) + context.rank(b),
{
    context.lemma_components_interned(a);
    context.lemma_components_interned(b);
    match (context.content(a), context.content(b)) {
        (TypeShape::Array(l, _), TypeShape::Array(r, _)) => {
            assert(shape_components(context.content(a))[0] == l);
            assert(shape_components(context.content(b))[0] == r);
            lemma_types_equiv_symmetric(context, l, r);
        },
        (TypeShape::Pointer(l), TypeShape::Pointer(r)) => {
            assert(shape_components(context.content(a))[0] == l);
            assert(shape_components(context.content(b))[0] == r);
            lemma_types_equiv_symmetric(context, l, r);
        },
        (TypeShape::Struct(l), TypeShape::Struct(r)) | (TypeShape::Union(l), TypeShape::Union(r)) => {
            if l.len() == r.len() {
                assert forall|i: int| 0 <= i < l.len() implies context.types_equiv(l[i], r[i])
                    == context.types_equiv(r[i], l[i]) by {
                    assert(shape_components(context.content(a))[i] == l[i]);
                    assert(shape_components(context.content(b))[i] == r[i]);
                    lemma_types_equiv_symmetric(context, l[i], r[i]);
                }
            }
        },
        _ => {},
    }
}

/// The decimal digit for `d`, which is below ten.
pub open spec fn digit_char(d: nat) -> char {
    if d == 0 { '0' } else if d == 1 { '1' } else if d == 2 { '2' } else if d == 3 { '3' }
    else if d == 4 { '4' } else if d == 5 { '5' } else if d == 6 { '6' } else if d == 7 { '7' }
    else if d == 8 { '8' } else { '9' }
}

/// The decimal representation of `n`, without leading zeros.
pub open spec fn decimal(n: nat) -> Seq<char>
    decreases n,
{
    if n < 10 {
        seq![digit_char(n)]
    } else {
        decimal(n / 10).push(digit_char(n % 10))
    }
}

/// The strings of `parts`, with `sep` between each two of them.
pub open spec fn join_strings(parts: Seq<Seq<char>>, sep: Seq<char>) -> Seq<char>
    decreases parts.len(),
{
    if parts.len() == 0 {
        Seq::empty()
    } else if parts.len() == 1 {
        parts[0]
    } else {
        join_strings(parts.drop_last(), sep) + sep + parts.last()
    }
}

fn push_digit(s: &mut String, d: u64)
    requires
        d < 10,
    ensures
        final(s)@ == old(s)@.push(digit_char(d as nat)),
{
    let lit: &str = if d == 0 { "0" } else if d == 1 { "1" } else if d == 2 { "2" } else if d == 3 { "3" }
        else if d == 4 { "4" } else if d == 5 { "5" } else if d == 6 { "6" } else if d == 7 { "7" }
        else if d == 8 { "8" } else { "9" };
    proof {
        reveal_strlit("0");
        reveal_strlit("1");
        reveal_strlit("2");
        reveal_strlit("3");
        reveal_strlit("4");
        reveal_strlit("5");
        reveal_strlit("6");
        reveal_strlit("7");
        reveal_strlit("8");
        reveal_strlit("9");
    }
    assert(lit@ =~= seq![digit_char(d as nat)]);
    s.append(lit);
    assert(s@ =~= old(s)@.push(digit_char(d as nat)));
}

/// Appends the decimal representation of `n`.
pub fn push_decimal(s: &mut String, n: u64)
    ensures
        final(s)@ == old(s)@ + decimal(n as nat),
    decreases n,
{
    if n >= 10 {
        push_decimal(s, n / 10);
        push_digit(s, n % 10);
        assert(s@ =~= old(s)@ + decimal(n as nat));
    } else {
        push_digit(s, n);
        assert(s@ =~= old(s)@ + decimal(n as nat));
    }
}

impl Context {
    /// The printed form of a type.
    pub closed spec fn type_string(&self, t: Type) -> Seq<char>
        decreases self.rank(t), 1nat, 0nat,
        when self.types_wf() && self.has_type(t)
    {
        proof {
            self.lemma_components_interned(t);
        }
        match self.content(t) {
            TypeShape::Unit => "()"@,
            TypeShape::Bool => "bool"@,
            TypeShape::Uint(nbits) => "u"@ + decimal(nbits as nat),
            TypeShape::B256 => "b256"@,
            TypeShape::String(n) => "string<"@ + decimal(n as nat) + ">"@,
            TypeShape::Array(ty, cnt) => {
                proof {
                    assert(shape_components(self.content(t))[0] == ty);
                }
                "["@ + self.type_string(ty) + "; "@ + decimal(cnt as nat) + "]"@
            },
            TypeShape::Union(agg) => "( "@ + join_strings(self.member_strings(agg, self.rank(t)), " | "@)
                + " )"@,
            TypeShape::Struct(agg) => "{ "@ + join_strings(self.member_strings(agg, self.rank(t)), ", "@)
                + " }"@,
            TypeShape::Pointer(p) => {
                proof {
                    assert(shape_components(self.content(t))[0] == p);
                }
                "ptr "@ + self.type_string(p)
            },
            TypeShape::Slice => "slice"@,
        }
    }

    /// The printed form of a type, one level at a time: the form of each
    /// kind of type in terms of the printed forms of its components.
    pub proof fn lemma_type_string_unfold(&self, t: Type)
        requires
            self.types_wf(),
            self.has_type(t),
        ensures
            self.type_string(t) == match self.content(t) {
                TypeShape::Unit => "()"@,
                TypeShape::Bool => "bool"@,
                TypeShape::Uint(nbits) => "u"@ + decimal(nbits as nat),
                TypeShape::B256 => "b256"@,
                TypeShape::String(n) => "string<"@ + decimal(n as nat) + ">"@,
                TypeShape::Array(ty, cnt) => "["@ + self.type_string(ty) + "; "@ + decimal(cnt as nat) + "]"@,
                TypeShape::Union(agg) => "( "@ + join_strings(
                    agg.map_values(|u: Type| self.type_string(u)),
                    " | "@,
                ) + " )"@,
                TypeShape::Struct(agg) => "{ "@ + join_strings(
                    agg.map_values(|u: Type| self.type_string(u)),
                    ", "@,
                ) + " }"@,
                TypeShape::Pointer(p) => "ptr "@ + self.type_string(p),
                TypeShape::Slice => "slice"@,
            },
    {
        self.lemma_components_interned(t);
        match self.content(t) {
            TypeShape::Union(agg) | TypeShape::Struct(agg) => {
                assert forall|j: int| 0 <= j < agg.len() implies self.has_type(#[trigger] agg[j]) && self.rank(agg[j])
                    < self.rank(t) by {
                    assert(shape_components(self.content(t))[j] == agg[j]);
                }
                self.lemma_member_strings(agg, self.rank(t));
                assert(self.member_strings(agg, self.rank(t)) =~= agg.map_values(|u: Type| self.type_string(u)));
            },
            TypeShape::Array(ty, _) | TypeShape::Pointer(ty) => {
                assert(shape_components(self.content(t))[0] == ty);
            },
            _ => {},
        }
    }

    proof fn lemma_member_strings(&self, agg: Seq<Type>, bound: nat)
        requires
            self.types_wf(),
            forall|j: int| 0 <= j < agg.len() ==> self.has_type(#[trigger] agg[j]) && self.rank(agg[j]) < bound,
        ensures
            self.member_strings(agg, bound).len() == agg.len(),
            forall|j: int| 0 <= j < agg.len() ==> #[trigger] self.member_strings(agg, bound)[j] == self.type_string(agg[j]),
        decreases agg.len(),
    {
        if agg.len() > 0 {
            self.lemma_member_strings(agg.drop_last(), bound);
        }
    }

    /// The printed forms of the types of `agg`, each ranked below `bound`.
    pub closed spec fn member_strings(&self, agg: Seq<Type>, bound: nat) -> Seq<Seq<char>>
        decreases bound, 0nat, agg.len(),
        when self.types_wf() && forall|j: int|
            0 <= j < agg.len() ==> self.has_type(#[trigger] agg[j]) && self.rank(agg[j]) < bound
    {
        if agg.len() == 0 {
            Seq::empty()
        } else {
            proof {
                assert(self.has_type(agg[agg.len() - 1]));
            }
            self.member_strings(agg.drop_last(), bound).push(self.type_string(agg.last()))
        }
    }
}

impl Type {
    /// Return a string representation of type, used for printing.
    pub fn as_string(&self, context: &Context) -> (res: String)
        requires
            context.types_wf(),
            context.has_type(*self),
        ensures
            res@ == context.type_string(*self),
        decreases context.rank(*self), 1nat,
    {
        proof {
            context.lemma_components_interned(*self);
        }
        let t = *self;
        let mut s = String::new();
        match self.get_content(context) {
            TypeContent::Unit => {
                s.append("()");
            },
            TypeContent::Bool => s.append("bool"),
            TypeContent::Uint(nbits) => {
                s.append("u");
                push_decimal(&mut s, *nbits as u64);
            },
            TypeContent::B256 => s.append("b256"),
            TypeContent::String(n) => {
                s.append("string<");
                push_decimal(&mut s, *n);
                s.append(">");
            },
            TypeContent::Array(ty, cnt) => {
                assert(shape_components(context.content(t))[0] == *ty);
                s.append("[");
                let inner = ty.as_string(context);
                s.append(inner.as_str());
                s.append("; ");
                push_decimal(&mut s, *cnt);
                s.append("]");
            },
            TypeContent::Union(agg) => {
                s.append("( ");
                append_joined(context, t, agg, " | ", &mut s);
                s.append(" )");
            },
            TypeContent::Struct(agg) => {
                s.append("{ ");
                append_joined(context, t, agg, ", ", &mut s);
                s.append(" }");
            },
            TypeContent::Pointer(pointee_ty) => {
                assert(shape_components(context.content(t))[0] == *pointee_ty);
                s.append("ptr ");
                let inner = pointee_ty.as_string(context);
                s.append(inner.as_str());
            },
            TypeContent::Slice => s.append("slice"),
        }
        s
    }
}

/// Appends the printed forms of the members of the aggregate `parent`,
/// separated by `sep`.
fn append_joined(context: &Context, parent: Type, agg: &Vec<Type>, sep: &str, s: &mut String)
    requires
        context.types_wf(),
        context.has_type(parent),
        shape_components(context.content(parent)) == agg@,
    ensures
        final(s)@ == old(s)@ + join_strings(context.member_strings(agg@, context.rank(parent)), sep@),
    decreases context.rank(parent), 0nat,
{
    proof {
        context.lemma_components_interned(parent);
    }
    let ghost parts = context.member_strings(agg@, context.rank(parent));
    proof {
        context.lemma_member_strings(agg@, context.rank(parent));
    }
    let ghost start = s@;
    let mut i: usize = 0;
    while i < agg.len()
        invariant
            context.types_wf(),
            context.has_type(parent),
            shape_components(context.content(parent)) == agg@,
            forall|j: int| 0 <= j < agg@.len() ==> context.has_type(#[trigger] agg@[j]) && context.rank(agg@[j]) < context.rank(parent),
            parts.len() == agg@.len(),
            forall|j: int| 0 <= j < agg@.len() ==> #[trigger] parts[j] == context.type_string(agg@[j]),
            0 <= i <= agg@.len(),
            s@ == start + join_strings(parts.subrange(0, i as int), sep@),
        decreases agg@.len() - i,
    {
        let inner = agg[i].as_string(context);
        proof {
            assert(parts.subrange(0, i + 1).drop_last() =~= parts.subrange(0, i as int));
        }
        if i > 0 {
            s.append(sep);
        }
        s.append(inner.as_str());
        proof {
            if i == 0 {
                assert(parts.subrange(0, 1).len() == 1);
                assert(parts.subrange(0, 0).len() == 0);
            }
            assert(s@ =~= start + join_strings(parts.subrange(0, i + 1), sep@));
        }
        i = i + 1;
    }
    assert(parts.subrange(0, agg@.len() as int) =~= parts);
}

/// Whether two type shapes are the same, computed on the contents.
fn same_types(a: &Vec<Type>, b: &Vec<Type>) -> (res: bool)
    ensures
        res == (a@ == b@),
{
    if a.len() != b.len() {
        return false;
    }
    let mut i: usize = 0;
    while i < a.len()
        invariant
            a@.len() == b@.len(),
            0 <= i <= a@.len(),
            forall|j: int| 0 <= j < i ==> a@[j] == b@[j],
        decreases a@.len() - i,
    {
        if a[i] != b[i] {
            return false;
        }
        i = i + 1;
    }
    assert(a@ =~= b@);
    true
}

fn copy_types(a: &Vec<Type>) -> (res: Vec<Type>)
    ensures
        res@ == a@,
{
    let mut res: Vec<Type> = Vec::new();
    let mut i: usize = 0;
    while i < a.len()
        invariant
            0 <= i <= a@.len(),
            res@ =~= a@.subrange(0, i as int),
        decreases a@.len() - i,
    {
        res.push(a[i]);
        i = i + 1;
    }
    assert(res@ =~= a@);
    res
}

impl TypeContent {
    /// Whether two contents describe the same type shape.
    pub fn same_content(&self, other: &TypeContent) -> (res: bool)
        ensures
            res == (self@ == other@),
    {
        match (self, other) {
            (TypeContent::Unit, TypeContent::Unit) => true,
            (TypeContent::Bool, TypeContent::Bool) => true,
            (TypeContent::Uint(l), TypeContent::Uint(r)) => *l == *r,
            (TypeContent::B256, TypeContent::B256) => true,
            (TypeContent::String(l), TypeContent::String(r)) => *l == *r,
            (TypeContent::Array(lt, ln), TypeContent::Array(rt, rn)) => *lt == *rt && *ln == *rn,
            (TypeContent::Union(l), TypeContent::Union(r)) => same_types(l, r),
            (TypeContent::Struct(l), TypeContent::Struct(r)) => same_types(l, r),
            (TypeContent::Pointer(l), TypeContent::Pointer(r)) => *l == *r,
            (TypeContent::Slice, TypeContent::Slice) => true,
            _ => false,
        }
    }

    /// A second copy of this content.
    pub fn duplicate(&self) -> (res: TypeContent)
        ensures
            res@ == self@,
    {
        match self {
            TypeContent::Unit => TypeContent::Unit,
            TypeContent::Bool => TypeContent::Bool,
            TypeContent::Uint(w) => TypeContent::Uint(*w),
            TypeContent::B256 => TypeContent::B256,
            TypeContent::String(n) => TypeContent::String(*n),
            TypeContent::Array(t, n) => TypeContent::Array(*t, *n),
            TypeContent::Union(fs) => TypeContent::Union(copy_types(fs)),
            TypeContent::Struct(fs) => TypeContent::Struct(copy_types(fs)),
            TypeContent::Pointer(t) => TypeContent::Pointer(*t),
            TypeContent::Slice => TypeContent::Slice,
        }
    }
}


/// Indexing one step into a struct or a union by an index below its number
/// of members gives that member's type, as asking for the field does.
pub proof fn lemma_index_into_aggregate(context: &Context, t: Type, i: u64, members: Seq<Type>)
    requires
        context.content(t) == TypeShape::Struct(members) || context.content(t) == TypeShape::Union(members),
        i <= usize::MAX,
        i < members.len(),
    ensures
        context.index_path(Some(t), seq![i]) == Some(members[i as int]),
        context.index_path(Some(t), seq![i]) == shape_field(context.content(t), i),
{
    assert(seq![i].drop_last() =~= Seq::<u64>::empty());
    assert(context.index_path(Some(t), Seq::<u64>::empty()) == Some(t));
    assert((i as usize) as int == i as int);
    assert(shape_field(context.content(t), i) == Some(members[i as int]));
}


/// One step of indexing: into an array, any index gives the element type;
/// into a struct or union, an index at or past the last member gives
/// nothing; into any other type, nothing.
pub proof fn lemma_index_step_other_cases(context: &Context, t: Type, i: u64)
    requires
        i <= usize::MAX,
    ensures
        context.content(t) matches TypeShape::Array(elem, _) ==> context.index_path(Some(t), seq![i]) == Some(elem),
        (context.content(t) matches TypeShape::Struct(ms) && i >= ms.len()) ==> context.index_path(Some(t), seq![i])
            is None,
        (context.content(t) matches TypeShape::Union(ms) && i >= ms.len()) ==> context.index_path(Some(t), seq![i])
            is None,
        !(context.content(t) is Array || context.content(t) is Struct || context.content(t) is Union)
            ==> context.index_path(Some(t), seq![i]) is None,
{
    assert(seq![i].drop_last() =~= Seq::<u64>::empty());
    assert(context.index_path(Some(t), Seq::<u64>::empty()) == Some(t));
    assert((i as usize) as int == i as int);
}

} // verus!
