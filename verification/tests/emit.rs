use win32gen::model::{
    ErrorStyle, MethodParam, MethodSignature, ParamFlags, ParamInfo, SignatureKind, TypeKind,
    TypeSignature,
};
use win32gen::tokens::Token;
use win32gen::win32::{
    gen_win32_abi, gen_win32_abi_arg, gen_win32_abi_param, gen_win32_param, gen_win32_params,
    gen_win32_result_type, gen_win32_return_sig,
};

fn em_prim(name: &str) -> TypeKind {
    TypeKind::Primitive { name: name.to_string(), abi: name.to_string() }
}

fn em_enumlike(name: &str, repr: &str) -> TypeKind {
    TypeKind::Primitive { name: name.to_string(), abi: repr.to_string() }
}

fn em_udt(name: &str, abi: &str, convertible: bool) -> TypeKind {
    TypeKind::Udt { name: name.to_string(), abi: abi.to_string(), convertible }
}

fn em_iface(name: &str) -> TypeKind {
    TypeKind::Interface { name: name.to_string() }
}

fn em_param(name: &str, output: bool, kind: TypeKind, pointers: usize) -> MethodParam {
    MethodParam {
        param: ParamInfo {
            name: name.to_string(),
            flags: ParamFlags { input: !output, output, optional: false },
        },
        signature: TypeSignature { kind, pointers },
    }
}

fn em_ident(name: &str) -> Token {
    Token::Ident(name.to_string())
}

#[test]
fn abi_param_input_pointers_are_const() {
    let p = em_param("data", false, em_prim("u32"), 2);
    let r = gen_win32_abi_param(&p);
    assert_eq!(r.toks, vec![Token::ConstPtr, Token::ConstPtr, em_ident("u32")]);
}

#[test]
fn abi_param_output_pointers_are_mut() {
    let p = em_param("data", true, em_prim("u32"), 2);
    let r = gen_win32_abi_param(&p);
    assert_eq!(r.toks, vec![Token::MutPtr, Token::MutPtr, em_ident("u32")]);
}

#[test]
fn abi_param_deep_udt_is_named_directly() {
    let p = em_param("rects", true, em_udt("RECT", "RECT_abi", false), 2);
    let r = gen_win32_abi_param(&p);
    assert_eq!(r.toks, vec![Token::MutPtr, Token::MutPtr, em_ident("RECT")]);
}

#[test]
fn abi_param_shallow_udt_uses_abi_name() {
    let p = em_param("rect", true, em_udt("RECT", "RECT_abi", false), 1);
    let r = gen_win32_abi_param(&p);
    assert_eq!(r.toks, vec![Token::MutPtr, em_ident("RECT_abi")]);
}

#[test]
fn abi_param_enumlike_uses_bit_compatible_repr() {
    let p = em_param("enabled", false, em_enumlike("BOOL", "i32"), 0);
    let r = gen_win32_abi_param(&p);
    assert_eq!(r.toks, vec![em_ident("i32")]);
}

#[test]
fn abi_param_interface_is_raw_pointer() {
    let p = em_param("target", false, em_iface("IStream"), 1);
    let r = gen_win32_abi_param(&p);
    assert_eq!(r.toks, vec![Token::ConstPtr, Token::RawPtr]);
}

#[test]
fn public_param_keeps_abi_shape_under_logical_name() {
    let p = em_param("rect", true, em_udt("RECT", "RECT_abi", false), 1);
    let r = gen_win32_param(&p);
    assert_eq!(r.toks, vec![Token::MutPtr, em_ident("RECT")]);
}

#[test]
fn public_params_convertible_gets_conversion_slot() {
    let params = vec![em_param("target", false, em_iface("IStream"), 0)];
    let r = gen_win32_params(&params);
    assert_eq!(
        r.toks,
        vec![
            em_ident("target"),
            Token::Colon,
            Token::KwImpl,
            Token::IntoParamTrait,
            Token::Lt,
            Token::LifetimeA,
            Token::Comma,
            em_ident("IStream"),
            Token::Gt,
            Token::Comma,
        ]
    );
}

#[test]
fn public_params_plain_keeps_raw_shape() {
    let params = vec![
        em_param("flags", false, em_prim("u32"), 0),
        em_param("value", true, em_prim("u32"), 1),
    ];
    let r = gen_win32_params(&params);
    assert_eq!(
        r.toks,
        vec![
            em_ident("flags"),
            Token::Colon,
            em_ident("u32"),
            Token::Comma,
            em_ident("value"),
            Token::Colon,
            Token::MutPtr,
            em_ident("u32"),
            Token::Comma,
        ]
    );
}

#[test]
fn public_params_empty_list_renders_nothing() {
    let params: Vec<MethodParam> = vec![];
    let r = gen_win32_params(&params);
    assert_eq!(r.toks, Vec::<Token>::new());
}

#[test]
fn abi_arg_convertible_converts_then_takes_raw() {
    let p = em_param("target", false, em_iface("IStream"), 0);
    let r = gen_win32_abi_arg(&p);
    assert_eq!(
        r.toks,
        vec![
            em_ident("target"),
            Token::Dot,
            Token::IntoParamFn,
            Token::LParen,
            Token::RParen,
            Token::Dot,
            Token::AbiFn,
            Token::LParen,
            Token::RParen,
        ]
    );
}

#[test]
fn abi_arg_plain_is_bitwise_reinterpretation() {
    let p = em_param("flags", false, em_prim("u32"), 0);
    let r = gen_win32_abi_arg(&p);
    assert_eq!(
        r.toks,
        vec![Token::Transmute, Token::LParen, em_ident("flags"), Token::RParen]
    );
}

#[test]
fn abi_decl_status_convention_returns_status_type() {
    let sig = MethodSignature {
        params: vec![
            em_param("flags", false, em_prim("u32"), 0),
            em_param("value", true, em_prim("u32"), 1),
        ],
        return_sig: None,
        style: ErrorStyle::StatusCode,
    };
    let r = gen_win32_abi(&sig);
    assert_eq!(
        r.toks,
        vec![
            Token::LParen,
            Token::This,
            Token::Colon,
            Token::RawPtr,
            Token::Comma,
            em_ident("flags"),
            Token::Colon,
            em_ident("u32"),
            Token::Comma,
            em_ident("value"),
            Token::Colon,
            Token::MutPtr,
            em_ident("u32"),
            Token::Comma,
            Token::RParen,
            Token::Arrow,
            Token::Hresult,
        ]
    );
}

#[test]
fn abi_decl_udt_return_synthesizes_trailing_slot() {
    let sig = MethodSignature {
        params: vec![em_param("flags", false, em_prim("u32"), 0)],
        return_sig: Some(TypeSignature { kind: em_udt("SIZE", "SIZE_abi", false), pointers: 0 }),
        style: ErrorStyle::Preserve,
    };
    let r = gen_win32_abi(&sig);
    assert_eq!(
        r.toks,
        vec![
            Token::LParen,
            Token::This,
            Token::Colon,
            Token::RawPtr,
            Token::Comma,
            em_ident("flags"),
            Token::Colon,
            em_ident("u32"),
            Token::Comma,
            Token::ResultSlot,
            Token::Colon,
            Token::MutPtr,
            em_ident("SIZE_abi"),
            Token::RParen,
        ]
    );
}

#[test]
fn abi_decl_plain_return_is_native_return() {
    let sig = MethodSignature {
        params: vec![],
        return_sig: Some(TypeSignature { kind: em_prim("i32"), pointers: 0 }),
        style: ErrorStyle::Preserve,
    };
    let r = gen_win32_abi(&sig);
    assert_eq!(
        r.toks,
        vec![
            Token::LParen,
            Token::This,
            Token::Colon,
            Token::RawPtr,
            Token::Comma,
            Token::RParen,
            Token::Arrow,
            em_ident("i32"),
        ]
    );
}

#[test]
fn return_sig_present_renders_logical_type() {
    let sig = MethodSignature {
        params: vec![],
        return_sig: Some(TypeSignature { kind: em_enumlike("BOOL", "i32"), pointers: 0 }),
        style: ErrorStyle::Preserve,
    };
    let r = gen_win32_return_sig(&sig);
    assert_eq!(r.toks, vec![Token::Arrow, em_ident("BOOL")]);
}

#[test]
fn return_sig_absent_renders_nothing() {
    let sig = MethodSignature { params: vec![], return_sig: None, style: ErrorStyle::StatusCode };
    let r = gen_win32_return_sig(&sig);
    assert_eq!(r.toks, Vec::<Token>::new());
}

#[test]
fn result_type_depth_one_names_base_type() {
    let sig = MethodSignature {
        params: vec![em_param("value", true, em_udt("RECT", "RECT_abi", false), 1)],
        return_sig: None,
        style: ErrorStyle::StatusCode,
    };
    assert_eq!(sig.kind(), SignatureKind::ResultValue);
    let r = gen_win32_result_type(&sig);
    assert_eq!(r.toks, vec![em_ident("RECT")]);
}

#[test]
fn result_type_depth_two_strips_one_level() {
    let sig = MethodSignature {
        params: vec![em_param("value", true, em_udt("RECT", "RECT_abi", false), 2)],
        return_sig: None,
        style: ErrorStyle::StatusCode,
    };
    let r = gen_win32_result_type(&sig);
    assert_eq!(r.toks, vec![Token::MutPtr, em_ident("RECT")]);
}

#[test]
fn result_type_depth_two_equals_depth_one_param_fragment() {
    // Consistency of result-type derivation: the depth-2 derivation equals the
    // public fragment of the same parameter written at depth 1.
    let sig = MethodSignature {
        params: vec![em_param("value", true, em_udt("RECT", "RECT_abi", false), 2)],
        return_sig: None,
        style: ErrorStyle::StatusCode,
    };
    let derived = gen_win32_result_type(&sig);
    let depth_one = em_param("value", true, em_udt("RECT", "RECT_abi", false), 1);
    let fragment = gen_win32_param(&depth_one);
    assert_eq!(derived.toks, fragment.toks);
}

#[test]
fn abi_and_public_fragments_agree_in_indirection() {
    // For a pointered user-defined kind the raw and public fragments carry the
    // same number of pointer decorations.
    let p = em_param("rects", true, em_udt("RECT", "RECT_abi", false), 3);
    let abi = gen_win32_abi_param(&p);
    let public = gen_win32_param(&p);
    let count = |toks: &Vec<Token>| {
        toks.iter()
            .take_while(|t| **t == Token::ConstPtr || **t == Token::MutPtr)
            .count()
    };
    assert_eq!(count(&abi.toks), 3);
    assert_eq!(count(&public.toks), 3);
}
