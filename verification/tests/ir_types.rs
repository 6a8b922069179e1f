use sway_verified::ir::irtype::{Context, Type, TypeContent};

#[test]
fn interning_the_same_type_twice_gives_one_type() {
    let mut ctx = Context::new();
    let a = Type::new_uint(&mut ctx, 64);
    let b = Type::new_uint(&mut ctx, 64);
    assert_eq!(a, b);
    let c = Type::new_uint(&mut ctx, 32);
    assert_ne!(a, c);
    let s1 = Type::new_struct(&mut ctx, vec![a, c]);
    let s2 = Type::new_struct(&mut ctx, vec![b, c]);
    assert_eq!(s1, s2);
}

#[test]
fn printed_forms_of_types() {
    let mut ctx = Context::new();
    let unit = Type::new_unit(&mut ctx);
    let boolean = Type::new_bool(&mut ctx);
    let u64_ty = Type::new_uint(&mut ctx, 64);
    let b256 = Type::new_b256(&mut ctx);
    let string = Type::new_string(&mut ctx, 12);
    let array = Type::new_array(&mut ctx, u64_ty, 3);
    let strukt = Type::new_struct(&mut ctx, vec![u64_ty, boolean]);
    let union = Type::new_union(&mut ctx, vec![u64_ty, boolean, unit]);
    let ptr = Type::new_pointer(&mut ctx, strukt);
    let slice = Type::new_slice(&mut ctx);
    assert_eq!(unit.as_string(&ctx), "()");
    assert_eq!(boolean.as_string(&ctx), "bool");
    assert_eq!(u64_ty.as_string(&ctx), "u64");
    assert_eq!(b256.as_string(&ctx), "b256");
    assert_eq!(string.as_string(&ctx), "string<12>");
    assert_eq!(array.as_string(&ctx), "[u64; 3]");
    assert_eq!(strukt.as_string(&ctx), "{ u64, bool }");
    assert_eq!(union.as_string(&ctx), "( u64 | bool | () )");
    assert_eq!(ptr.as_string(&ctx), "ptr { u64, bool }");
    assert_eq!(slice.as_string(&ctx), "slice");
}

#[test]
fn kinds_of_types() {
    let mut ctx = Context::new();
    let unit = Type::new_unit(&mut ctx);
    let boolean = Type::new_bool(&mut ctx);
    let u8_ty = Type::new_uint(&mut ctx, 8);
    let strukt = Type::new_struct(&mut ctx, vec![u8_ty]);
    let ptr = Type::new_pointer(&mut ctx, strukt);
    assert!(unit.is_unit(&ctx));
    assert!(boolean.is_bool(&ctx));
    assert!(u8_ty.is_uint(&ctx));
    assert!(u8_ty.is_uint_of(&ctx, 8));
    assert!(!u8_ty.is_uint_of(&ctx, 64));
    assert!(strukt.is_struct(&ctx));
    assert!(ptr.is_ptr_type(&ctx));
    assert!(unit.is_copy_type(&ctx));
    assert!(u8_ty.is_copy_type(&ctx));
    assert!(!strukt.is_copy_type(&ctx));
    assert_eq!(ptr.strip_ptr_type(&ctx), strukt);
    assert_eq!(strukt.strip_ptr_type(&ctx), strukt);
    assert_eq!(ptr.get_inner_ptr_type(&ctx), Some(strukt));
    assert_eq!(strukt.get_inner_ptr_type(&ctx), None);
}

#[test]
fn indexed_and_field_types() {
    let mut ctx = Context::new();
    let u64_ty = Type::new_uint(&mut ctx, 64);
    let boolean = Type::new_bool(&mut ctx);
    let inner = Type::new_struct(&mut ctx, vec![u64_ty, boolean]);
    let array = Type::new_array(&mut ctx, inner, 4);
    let outer = Type::new_struct(&mut ctx, vec![boolean, array]);
    assert_eq!(outer.get_field_type(&ctx, 1), Some(array));
    assert_eq!(outer.get_field_type(&ctx, 2), None);
    assert_eq!(array.get_array_elem_type(&ctx), Some(inner));
    assert_eq!(array.get_array_len(&ctx), Some(4));
    assert_eq!(inner.get_array_len(&ctx), None);
    assert_eq!(outer.get_indexed_type(&ctx, &[1, 3, 1]), Some(boolean));
    assert_eq!(outer.get_indexed_type(&ctx, &[]), None);
    assert_eq!(outer.get_indexed_type(&ctx, &[0, 0]), None);
    assert_eq!(outer.field_iter(&ctx), vec![boolean, array]);
    assert_eq!(u64_ty.field_iter(&ctx), Vec::<Type>::new());
}

#[test]
fn union_types_are_equal_to_their_members() {
    let mut ctx = Context::new();
    let u64_ty = Type::new_uint(&mut ctx, 64);
    let boolean = Type::new_bool(&mut ctx);
    let union = Type::new_union(&mut ctx, vec![u64_ty, boolean]);
    assert!(union.eq(&ctx, &u64_ty));
    assert!(boolean.eq(&ctx, &union));
    assert!(!u64_ty.eq(&ctx, &boolean));
    assert!(u64_ty.eq(&ctx, &u64_ty));
    let content = u64_ty.get_content(&ctx);
    assert!(matches!(content, TypeContent::Uint(64)));
}

#[test]
fn unique_types_are_made_once_per_content() {
    let mut ctx = Context::new();
    let u8_ty = Type::get_or_create_unique_type(&mut ctx, TypeContent::Uint(8));
    let again = Type::get_or_create_unique_type(&mut ctx, TypeContent::Uint(8));
    assert_eq!(u8_ty, again);
    assert_eq!(ctx.types.len(), 1);
    let wide = Type::get_or_create_unique_type(&mut ctx, TypeContent::Uint(64));
    assert_ne!(wide, u8_ty);
    assert!(matches!(u8_ty.get_content(&ctx), TypeContent::Uint(8)));
    assert_eq!(ctx.types.len(), 2);
}
