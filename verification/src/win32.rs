//! The emitters: pure functions from a method signature to the token
//! fragments of the raw-ABI declaration, the public parameter list and call
//! site, the upcall bridge, and the derived result type. Each emitter's
//! contract states the exact token sequence produced.

use vstd::prelude::*;

use crate::model::{ErrorStyle, MethodParam, MethodSignature, SignatureKind, TypeSignature};
use crate::tokens::{Token, TokenStream};

verus! {

/// A generation-time fault: the signature follows a convention this generator
/// recognizes but deliberately does not emit.
#[derive(Debug, Clone, Copy, PartialEq, Eq, Structural)]
pub enum GenError {
    /// Emission was asked for an unimplemented convention; the payload says
    /// which one was met.
    UnimplementedConvention(SignatureKind),
}

/// The pointer decorations of a type fragment: one decoration per indirection
/// level, mutable exactly when the parameter is an output.
pub open spec fn spec_ptr_decorations(output: bool, n: nat) -> Seq<Token> {
    Seq::new(n, |i: int| if output { Token::MutPtr } else { Token::ConstPtr })
}

/// The base token of a raw-ABI type fragment: under more than one level of
/// indirection a user-defined type is named directly; every other shape uses
/// the kind's bit-compatible ABI name.
pub open spec fn spec_abi_base(t: TypeSignature) -> Token {
    if t.pointers > 1 && t.kind.spec_is_udt() {
        t.kind.spec_name_token()
    } else {
        t.kind.spec_abi_token()
    }
}

/// The raw-ABI type fragment of a parameter: its pointer decorations, const
/// for inputs and mut for outputs, over the ABI base token.
pub open spec fn spec_abi_param(p: MethodParam) -> Seq<Token> {
    spec_ptr_decorations(p.param.flags.output, p.signature.pointers as nat)
        + seq![spec_abi_base(p.signature)]
}

/// The public type fragment of a non-convertible parameter: the same
/// decorations as the raw-ABI fragment over the logical type name.
pub open spec fn spec_param(p: MethodParam) -> Seq<Token> {
    spec_ptr_decorations(p.param.flags.output, p.signature.pointers as nat)
        + seq![p.signature.kind.spec_name_token()]
}

/// The raw-ABI fragment of a return type signature: mutable decorations over
/// the ABI base token.
pub open spec fn spec_abi_sig(t: TypeSignature) -> Seq<Token> {
    spec_ptr_decorations(true, t.pointers as nat) + seq![spec_abi_base(t)]
}

/// The logical fragment of a return type signature.
pub open spec fn spec_sig(t: TypeSignature) -> Seq<Token> {
    spec_ptr_decorations(true, t.pointers as nat) + seq![t.kind.spec_name_token()]
}

/// The same type signature one indirection level deeper.
pub open spec fn spec_plus_one(t: TypeSignature) -> TypeSignature {
    TypeSignature { kind: t.kind, pointers: (t.pointers + 1) as usize }
}

/// Emits `n` pointer decorations into `toks`: mutable when `output` holds,
/// read-only otherwise.
fn push_ptr_decorations(toks: &mut TokenStream, output: bool, n: usize)
    ensures
        final(toks)@ == old(toks)@ + spec_ptr_decorations(output, n as nat),
{
    let mut i: usize = 0;
    while i < n
        invariant
            i <= n,
            toks@ == old(toks)@ + spec_ptr_decorations(output, i as nat),
        decreases n - i,
    {
        if output {
            toks.push(Token::MutPtr);
        } else {
            toks.push(Token::ConstPtr);
        }
        i = i + 1;
        proof {
            assert(toks@ =~= old(toks)@ + spec_ptr_decorations(output, i as nat));
        }
    }
    proof {
        assert(toks@ =~= old(toks)@ + spec_ptr_decorations(output, n as nat));
    }
}

/// Renders the raw-ABI type fragment of one parameter: `pointers` decorations,
/// const for inputs and mut for outputs, then the base type — the named
/// user-defined type under more than one level of indirection, the
/// bit-compatible ABI name otherwise.
pub fn gen_win32_abi_param(param: &MethodParam) -> (r: TokenStream)
    ensures
        r@ == spec_abi_param(*param),
{
    let mut toks = TokenStream::new();
    push_ptr_decorations(&mut toks, param.param.flags.output, param.signature.pointers);
    if param.signature.pointers > 1 && param.signature.kind.is_udt() {
        toks.push(param.signature.kind.name_token());
    } else {
        toks.push(param.signature.kind.abi_token());
    }
    proof {
        assert(toks@ =~= spec_abi_param(*param));
    }
    toks
}

/// Renders the public type fragment of one parameter: the same decorations as
/// the raw-ABI fragment over the logical type name.
pub fn gen_win32_param(param: &MethodParam) -> (r: TokenStream)
    ensures
        r@ == spec_param(*param),
{
    let mut toks = TokenStream::new();
    push_ptr_decorations(&mut toks, param.param.flags.output, param.signature.pointers);
    toks.push(param.signature.kind.name_token());
    proof {
        assert(toks@ =~= spec_param(*param));
    }
    toks
}

/// Renders the raw-ABI fragment of a return type signature, `extra` levels
/// deeper than written: mutable decorations over the ABI base token. The
/// extra level is what the synthesized aggregate-return slot adds.
fn gen_abi_sig(t: &TypeSignature, extra: usize) -> (r: TokenStream)
    requires
        t.pointers + extra <= usize::MAX,
    ensures
        r@ == spec_abi_sig(TypeSignature { kind: t.kind, pointers: (t.pointers + extra) as usize }),
{
    let total = t.pointers + extra;
    let mut toks = TokenStream::new();
    push_ptr_decorations(&mut toks, true, total);
    if total > 1 && t.kind.is_udt() {
        toks.push(t.kind.name_token());
    } else {
        toks.push(t.kind.abi_token());
    }
    proof {
        assert(toks@ =~= spec_abi_sig(
            TypeSignature { kind: t.kind, pointers: (t.pointers + extra) as usize },
        ));
    }
    toks
}

/// Renders the logical fragment of a return type signature.
fn gen_sig(t: &TypeSignature) -> (r: TokenStream)
    ensures
        r@ == spec_sig(*t),
{
    let mut toks = TokenStream::new();
    push_ptr_decorations(&mut toks, true, t.pointers);
    toks.push(t.kind.name_token());
    proof {
        assert(toks@ =~= spec_sig(*t));
    }
    toks
}

/// The call-site argument fragment that forwards a public value into the raw
/// declaration: a convertible value is converted and its raw representation
/// taken; any other value is reinterpreted bitwise.
pub open spec fn spec_abi_arg(p: MethodParam) -> Seq<Token> {
    if p.spec_is_convertible() {
        seq![
            Token::Ident(p.param.name),
            Token::Dot,
            Token::IntoParamFn,
            Token::LParen,
            Token::RParen,
            Token::Dot,
            Token::AbiFn,
            Token::LParen,
            Token::RParen,
        ]
    } else {
        seq![Token::Transmute, Token::LParen, Token::Ident(p.param.name), Token::RParen]
    }
}

/// Renders the call-site argument fragment of one parameter.
pub fn gen_win32_abi_arg(param: &MethodParam) -> (r: TokenStream)
    ensures
        r@ == spec_abi_arg(*param),
{
    let mut toks = TokenStream::new();
    if param.is_convertible() {
        toks.push(Token::Ident(param.param.name.clone()));
        toks.push(Token::Dot);
        toks.push(Token::IntoParamFn);
        toks.push(Token::LParen);
        toks.push(Token::RParen);
        toks.push(Token::Dot);
        toks.push(Token::AbiFn);
        toks.push(Token::LParen);
        toks.push(Token::RParen);
    } else {
        toks.push(Token::Transmute);
        toks.push(Token::LParen);
        toks.push(Token::Ident(param.param.name.clone()));
        toks.push(Token::RParen);
    }
    proof {
        assert(toks@ =~= spec_abi_arg(*param));
    }
    toks
}

/// The argument fragment a bridge body uses to forward one raw-ABI value to
/// the higher-level implementation: a bitwise copy of the named parameter.
pub open spec fn spec_invoke_arg(p: MethodParam) -> Seq<Token> {
    seq![
        Token::TransmuteCopy,
        Token::LParen,
        Token::Amp,
        Token::Ident(p.param.name),
        Token::RParen,
    ]
}

/// Renders the bridge-side forwarding fragment of one parameter.
fn gen_win32_invoke_arg(param: &MethodParam) -> (r: TokenStream)
    ensures
        r@ == spec_invoke_arg(*param),
{
    let mut toks = TokenStream::new();
    toks.push(Token::TransmuteCopy);
    toks.push(Token::LParen);
    toks.push(Token::Amp);
    toks.push(Token::Ident(param.param.name.clone()));
    toks.push(Token::RParen);
    proof {
        assert(toks@ =~= spec_invoke_arg(*param));
    }
    toks
}

/// The public parameter list contributes, for each parameter, its name and
/// either a conversion-capable generic slot or the plain public type fragment.
pub open spec fn spec_public_param_piece(p: MethodParam) -> Seq<Token> {
    seq![Token::Ident(p.param.name), Token::Colon] + (if p.spec_is_convertible() {
        seq![
            Token::KwImpl,
            Token::IntoParamTrait,
            Token::Lt,
            Token::LifetimeA,
            Token::Comma,
            p.signature.kind.spec_name_token(),
            Token::Gt,
            Token::Comma,
        ]
    } else {
        spec_param(p) + seq![Token::Comma]
    })
}

/// The public parameter list: the pieces of all parameters in call order.
pub open spec fn spec_public_params(params: Seq<MethodParam>) -> Seq<Token>
    decreases params.len(),
{
    if params.len() == 0 {
        Seq::empty()
    } else {
        spec_public_params(params.drop_last()) + spec_public_param_piece(params.last())
    }
}

/// Renders the ergonomic, caller-facing parameter list: a parameter whose kind
/// accepts the implicit conversion is declared as a generic slot constrained
/// by that capability; any other parameter keeps the shape of its raw-ABI
/// fragment under its logical name. Order and count are never changed.
pub fn gen_win32_params(params: &Vec<MethodParam>) -> (r: TokenStream)
    ensures
        r@ == spec_public_params(params@),
{
    let mut toks = TokenStream::new();
    let mut i: usize = 0;
    while i < params.len()
        invariant
            i <= params@.len(),
            toks@ == spec_public_params(params@.take(i as int)),
        decreases params@.len() - i,
    {
        let p = &params[i];
        toks.push(Token::Ident(p.param.name.clone()));
        toks.push(Token::Colon);
        if p.is_convertible() {
            toks.push(Token::KwImpl);
            toks.push(Token::IntoParamTrait);
            toks.push(Token::Lt);
            toks.push(Token::LifetimeA);
            toks.push(Token::Comma);
            toks.push(p.signature.kind.name_token());
            toks.push(Token::Gt);
            toks.push(Token::Comma);
        } else {
            let frag = gen_win32_param(p);
            toks.append(frag);
            toks.push(Token::Comma);
        }
        proof {
            assert(params@.take((i + 1) as int).drop_last() =~= params@.take(i as int));
            assert(toks@ =~= spec_public_params(params@.take((i + 1) as int)));
        }
        i = i + 1;
    }
    proof {
        assert(params@.take(params@.len() as int) =~= params@);
    }
    toks
}

/// One declared parameter of the raw declaration: its name, a colon, its
/// raw-ABI type fragment, and the separating comma.
pub open spec fn spec_abi_param_piece(p: MethodParam) -> Seq<Token> {
    seq![Token::Ident(p.param.name), Token::Colon] + spec_abi_param(p) + seq![Token::Comma]
}

/// The declared parameters of the raw declaration, in call order.
pub open spec fn spec_abi_params(params: Seq<MethodParam>) -> Seq<Token>
    decreases params.len(),
{
    if params.len() == 0 {
        Seq::empty()
    } else {
        spec_abi_params(params.drop_last()) + spec_abi_param_piece(params.last())
    }
}

/// The slot the raw declaration synthesizes when the return type is a
/// user-defined aggregate: a trailing output parameter one indirection level
/// deeper than the return type, through which the callee delivers the value.
pub open spec fn spec_abi_ret_slot(sig: MethodSignature) -> Seq<Token> {
    match sig.return_sig {
        Some(t) => {
            if t.kind.spec_is_udt() {
                seq![Token::ResultSlot, Token::Colon] + spec_abi_sig(spec_plus_one(t))
            } else {
                Seq::empty()
            }
        },
        None => Seq::empty(),
    }
}

/// The native return fragment of the raw declaration: the status-code type
/// for the out-of-band conventions, the raw-ABI form of a present non-aggregate
/// return type, and nothing when an aggregate slot was synthesized or no value
/// comes back.
pub open spec fn spec_abi_ret(sig: MethodSignature) -> Seq<Token> {
    if sig.style != ErrorStyle::Preserve {
        seq![Token::Arrow, Token::Hresult]
    } else {
        match sig.return_sig {
            Some(t) => {
                if t.kind.spec_is_udt() {
                    Seq::empty()
                } else {
                    seq![Token::Arrow] + spec_abi_sig(t)
                }
            },
            None => Seq::empty(),
        }
    }
}

/// The whole raw declaration: the implicit interface pointer, the declared
/// parameters, the synthesized aggregate slot if any, and the native return.
pub open spec fn spec_abi_decl(sig: MethodSignature) -> Seq<Token> {
    seq![Token::LParen, Token::This, Token::Colon, Token::RawPtr, Token::Comma]
        + spec_abi_params(sig.params@) + spec_abi_ret_slot(sig) + seq![Token::RParen]
        + spec_abi_ret(sig)
}

/// Renders the raw-ABI declaration of the signature: the parameter list a
/// native caller expects bit-for-bit, beginning with the implicit opaque
/// interface pointer. A user-defined return type is not expressed as a native
/// return value; a trailing output slot one level deeper is synthesized for it
/// instead, and the native return slot stays empty.
pub fn gen_win32_abi(sig: &MethodSignature) -> (r: TokenStream)
    requires
        sig.wf(),
        (match sig.return_sig {
            Some(t) => t.kind.spec_is_udt() ==> t.pointers < usize::MAX,
            None => true,
        }),
    ensures
        r@ == spec_abi_decl(*sig),
{
    let mut toks = TokenStream::new();
    toks.push(Token::LParen);
    toks.push(Token::This);
    toks.push(Token::Colon);
    toks.push(Token::RawPtr);
    toks.push(Token::Comma);
    let mut ptoks = TokenStream::new();
    let mut i: usize = 0;
    while i < sig.params.len()
        invariant
            i <= sig.params@.len(),
            ptoks@ == spec_abi_params(sig.params@.take(i as int)),
        decreases sig.params@.len() - i,
    {
        let p = &sig.params[i];
        ptoks.push(Token::Ident(p.param.name.clone()));
        ptoks.push(Token::Colon);
        let frag = gen_win32_abi_param(p);
        ptoks.append(frag);
        ptoks.push(Token::Comma);
        proof {
            assert(sig.params@.take((i + 1) as int).drop_last() =~= sig.params@.take(i as int));
            assert(ptoks@ =~= spec_abi_params(sig.params@.take((i + 1) as int)));
        }
        i = i + 1;
    }
    proof {
        assert(sig.params@.take(sig.params@.len() as int) =~= sig.params@);
    }
    toks.append(ptoks);
    match &sig.return_sig {
        Some(t) => {
            if t.kind.is_udt() {
                toks.push(Token::ResultSlot);
                toks.push(Token::Colon);
                let frag = gen_abi_sig(t, 1);
                toks.append(frag);
            }
        },
        None => {},
    }
    toks.push(Token::RParen);
    match sig.style {
        ErrorStyle::Preserve => {
            match &sig.return_sig {
                Some(t) => {
                    if !t.kind.is_udt() {
                        toks.push(Token::Arrow);
                        let frag = gen_abi_sig(t, 0);
                        toks.append(frag);
                    }
                },
                None => {},
            }
        },
        _ => {
            toks.push(Token::Arrow);
            toks.push(Token::Hresult);
        },
    }
    proof {
        assert(toks@ =~= spec_abi_decl(*sig));
    }
    toks
}

/// The logical return fragment of the signature: the return type as written,
/// or nothing when the convention carries no direct return value.
pub open spec fn spec_return_sig(sig: MethodSignature) -> Seq<Token> {
    match sig.return_sig {
        Some(t) => seq![Token::Arrow] + spec_sig(t),
        None => Seq::empty(),
    }
}

/// Renders the logical return fragment of the signature.
pub fn gen_win32_return_sig(signature: &MethodSignature) -> (r: TokenStream)
    ensures
        r@ == spec_return_sig(*signature),
{
    let mut toks = TokenStream::new();
    match &signature.return_sig {
        Some(t) => {
            toks.push(Token::Arrow);
            let frag = gen_sig(t);
            toks.append(frag);
        },
        None => {},
    }
    proof {
        assert(toks@ =~= spec_return_sig(*signature));
    }
    toks
}

/// The logical success type of a value-returning fallible signature, read off
/// its final parameter: above depth one, the parameter's own fragment with the
/// by-reference wrapper stripped once; at depth one, the base type itself.
pub open spec fn spec_result_type(sig: MethodSignature) -> Seq<Token> {
    let p = sig.params@.last();
    if p.signature.pointers > 1 {
        spec_ptr_decorations(p.param.flags.output, (p.signature.pointers - 1) as nat)
            + seq![p.signature.kind.spec_name_token()]
    } else {
        seq![p.signature.kind.spec_name_token()]
    }
}

/// Derives the logical success type of a value-returning fallible signature.
pub fn gen_win32_result_type(signature: &MethodSignature) -> (r: TokenStream)
    requires
        signature.spec_kind() == SignatureKind::ResultValue,
    ensures
        r@ == spec_result_type(*signature),
{
    proof {
        assert(signature.params@.len() > 0);
    }
    let n = signature.params.len();
    let p = &signature.params[n - 1];
    let mut toks = TokenStream::new();
    if p.signature.pointers > 1 {
        push_ptr_decorations(&mut toks, p.param.flags.output, p.signature.pointers - 1);
    }
    toks.push(p.signature.kind.name_token());
    proof {
        assert(toks@ =~= spec_result_type(*signature));
    }
    toks
}

/// The forwarding arguments of a bridge body: one bitwise copy per parameter,
/// each followed by the separating comma, in call order.
pub open spec fn spec_invoke_args(params: Seq<MethodParam>) -> Seq<Token>
    decreases params.len(),
{
    if params.len() == 0 {
        Seq::empty()
    } else {
        spec_invoke_args(params.drop_last()) + spec_invoke_arg(params.last()) + seq![Token::Comma]
    }
}

/// The bridge body for an implemented convention. For the value convention the
/// inner call receives every parameter but the last; on success the value is
/// copied into the location the last parameter points to, its own finalization
/// is suppressed — the copy now owns the resource — and the zero status is
/// returned, while on failure the error is converted to a status and nothing
/// is written. For the void convention the outcome itself becomes the status.
/// For the pass-through convention the inner result is returned unchanged.
pub open spec fn spec_upcall(sig: MethodSignature, inner: Seq<Token>) -> Seq<Token> {
    match sig.spec_kind() {
        SignatureKind::ResultValue => seq![Token::KwMatch] + inner + seq![Token::LParen]
            + spec_invoke_args(sig.params@.drop_last())
            + seq![
            Token::RParen,
            Token::LBrace,
            Token::ResultOk,
            Token::LParen,
            Token::OkBind,
            Token::RParen,
            Token::FatArrow,
            Token::LBrace,
            Token::Star,
            Token::Ident(sig.params@.last().param.name),
            Token::Assign,
            Token::TransmuteCopy,
            Token::LParen,
            Token::Amp,
            Token::OkBind,
            Token::RParen,
            Token::Semi,
            Token::Forget,
            Token::LParen,
            Token::OkBind,
            Token::RParen,
            Token::Semi,
            Token::Hresult,
            Token::LParen,
            Token::Zero,
            Token::RParen,
            Token::RBrace,
            Token::ResultErr,
            Token::LParen,
            Token::ErrBind,
            Token::RParen,
            Token::FatArrow,
            Token::ErrBind,
            Token::Dot,
            Token::IntoFn,
            Token::LParen,
            Token::RParen,
            Token::RBrace,
        ],
        SignatureKind::ResultVoid => inner + seq![Token::LParen] + spec_invoke_args(sig.params@)
            + seq![Token::RParen, Token::Dot, Token::IntoFn, Token::LParen, Token::RParen],
        SignatureKind::PreserveSig => inner + seq![Token::LParen] + spec_invoke_args(sig.params@)
            + seq![Token::RParen],
        _ => Seq::empty(),
    }
}

/// Emits the forwarding fragments of the first `n` parameters, in call order.
fn push_invoke_args(toks: &mut TokenStream, params: &Vec<MethodParam>, n: usize)
    requires
        n <= params@.len(),
    ensures
        final(toks)@ == old(toks)@ + spec_invoke_args(params@.take(n as int)),
{
    let mut i: usize = 0;
    while i < n
        invariant
            i <= n,
            n <= params@.len(),
            toks@ == old(toks)@ + spec_invoke_args(params@.take(i as int)),
        decreases n - i,
    {
        let frag = gen_win32_invoke_arg(&params[i]);
        toks.append(frag);
        toks.push(Token::Comma);
        proof {
            assert(params@.take((i + 1) as int).drop_last() =~= params@.take(i as int));
            assert(toks@ =~= old(toks)@ + spec_invoke_args(params@.take((i + 1) as int)));
        }
        i = i + 1;
    }
}

/// Renders the upcall bridge body for the signature: the glue that receives
/// the raw-ABI arguments, forwards them to `inner` — the expression naming the
/// higher-level implementation — and translates its outcome back into the
/// native convention. The two recognized-but-unimplemented conventions are
/// refused with a visible fault rather than emitting plausible but wrong glue.
#[verifier::rlimit(100)]
pub fn gen_win32_upcall(sig: &MethodSignature, inner: TokenStream) -> (r: Result<
    TokenStream,
    GenError,
>)
    ensures
        ({
            let k = sig.spec_kind();
            &&& (k == SignatureKind::QueryInterface || k == SignatureKind::ReturnStruct) ==> r
                == Result::<TokenStream, GenError>::Err(GenError::UnimplementedConvention(k))
            &&& (k == SignatureKind::ResultValue || k == SignatureKind::ResultVoid || k
                == SignatureKind::PreserveSig) ==> (r matches Ok(ts) && ts@ == spec_upcall(
                *sig,
                inner@,
            ))
        }),
{
    match sig.kind() {
        SignatureKind::QueryInterface => Err(
            GenError::UnimplementedConvention(SignatureKind::QueryInterface),
        ),
        SignatureKind::ReturnStruct => Err(
            GenError::UnimplementedConvention(SignatureKind::ReturnStruct),
        ),
        SignatureKind::ResultValue => {
            proof {
                assert(sig.params@.len() > 0);
            }
            let n = sig.params.len();
            let mut toks = TokenStream::new();
            toks.push(Token::KwMatch);
            toks.append(inner);
            toks.push(Token::LParen);
            push_invoke_args(&mut toks, &sig.params, n - 1);
            proof {
                assert(sig.params@.take((n - 1) as int) =~= sig.params@.drop_last());
            }
            toks.push(Token::RParen);
            toks.push(Token::LBrace);
            toks.push(Token::ResultOk);
            toks.push(Token::LParen);
            toks.push(Token::OkBind);
            toks.push(Token::RParen);
            toks.push(Token::FatArrow);
            toks.push(Token::LBrace);
            toks.push(Token::Star);
            toks.push(Token::Ident(sig.params[n - 1].param.name.clone()));
            toks.push(Token::Assign);
            toks.push(Token::TransmuteCopy);
            toks.push(Token::LParen);
            toks.push(Token::Amp);
            toks.push(Token::OkBind);
            toks.push(Token::RParen);
            toks.push(Token::Semi);
            toks.push(Token::Forget);
            toks.push(Token::LParen);
            toks.push(Token::OkBind);
            toks.push(Token::RParen);
            toks.push(Token::Semi);
            toks.push(Token::Hresult);
            toks.push(Token::LParen);
            toks.push(Token::Zero);
            toks.push(Token::RParen);
            toks.push(Token::RBrace);
            toks.push(Token::ResultErr);
            toks.push(Token::LParen);
            toks.push(Token::ErrBind);
            toks.push(Token::RParen);
            toks.push(Token::FatArrow);
            toks.push(Token::ErrBind);
            toks.push(Token::Dot);
            toks.push(Token::IntoFn);
            toks.push(Token::LParen);
            toks.push(Token::RParen);
            toks.push(Token::RBrace);
            proof {
                assert(toks@ =~= spec_upcall(*sig, inner@));
            }
            Ok(toks)
        },
        SignatureKind::ResultVoid => {
            let n = sig.params.len();
            let mut toks = TokenStream::new();
            toks.append(inner);
            toks.push(Token::LParen);
            push_invoke_args(&mut toks, &sig.params, n);
            proof {
                assert(sig.params@.take(n as int) =~= sig.params@);
            }
            toks.push(Token::RParen);
            toks.push(Token::Dot);
            toks.push(Token::IntoFn);
            toks.push(Token::LParen);
            toks.push(Token::RParen);
            proof {
                assert(toks@ =~= spec_upcall(*sig, inner@));
            }
            Ok(toks)
        },
        SignatureKind::PreserveSig => {
            let n = sig.params.len();
            let mut toks = TokenStream::new();
            toks.append(inner);
            toks.push(Token::LParen);
            push_invoke_args(&mut toks, &sig.params, n);
            proof {
                assert(sig.params@.take(n as int) =~= sig.params@);
            }
            toks.push(Token::RParen);
            proof {
                assert(toks@ =~= spec_upcall(*sig, inner@));
            }
            Ok(toks)
        },
    }
}

/// The number of leading pointer decorations of a type fragment.
pub open spec fn spec_indirection(s: Seq<Token>) -> nat
    decreases s.len(),
{
    if s.len() > 0 && (s[0] == Token::ConstPtr || s[0] == Token::MutPtr) {
        1 + spec_indirection(s.drop_first())
    } else {
        0
    }
}

/// A fragment made of `n` pointer decorations over a base token that is not
/// itself a decoration carries exactly `n` levels of indirection.
proof fn lemma_indirection_of_decorated(output: bool, n: nat, base: Token)
    requires
        base != Token::ConstPtr,
        base != Token::MutPtr,
    ensures
        spec_indirection(spec_ptr_decorations(output, n) + seq![base]) == n,
    decreases n,
{
    let s = spec_ptr_decorations(output, n) + seq![base];
    if n == 0 {
        assert(s =~= seq![base]);
    } else {
        assert(s.drop_first() =~= spec_ptr_decorations(output, (n - 1) as nat) + seq![base]);
        lemma_indirection_of_decorated(output, (n - 1) as nat, base);
    }
}

/// For a parameter of a user-defined kind under at least one level of
/// indirection, the raw-ABI fragment and the public fragment agree in
/// indirection count: both carry exactly the type's pointer depth.
pub proof fn lemma_abi_public_indirection_agree(p: MethodParam)
    requires
        p.signature.pointers >= 1,
        p.signature.kind.spec_is_udt(),
    ensures
        spec_indirection(spec_abi_param(p)) == p.signature.pointers,
        spec_indirection(spec_param(p)) == p.signature.pointers,
{
    assert(spec_abi_base(p.signature) is Ident);
    assert(p.signature.kind.spec_name_token() is Ident);
    lemma_indirection_of_decorated(
        p.param.flags.output,
        p.signature.pointers as nat,
        spec_abi_base(p.signature),
    );
    lemma_indirection_of_decorated(
        p.param.flags.output,
        p.signature.pointers as nat,
        p.signature.kind.spec_name_token(),
    );
}

/// The slot synthesized for a user-defined return type carries exactly one
/// level of indirection more than the logical return fragment carries.
pub proof fn lemma_synthesized_slot_one_deeper(t: TypeSignature)
    requires
        t.kind.spec_is_udt(),
        t.pointers < usize::MAX,
    ensures
        spec_indirection(spec_abi_sig(spec_plus_one(t))) == t.pointers + 1,
        spec_indirection(spec_sig(t)) == t.pointers,
{
    assert(spec_abi_base(spec_plus_one(t)) is Ident);
    assert(t.kind.spec_name_token() is Ident);
    lemma_indirection_of_decorated(
        true,
        (t.pointers + 1) as nat,
        spec_abi_base(spec_plus_one(t)),
    );
    lemma_indirection_of_decorated(true, t.pointers as nat, t.kind.spec_name_token());
}

/// Result-type derivation is consistent with the parameter fragments: applied
/// at depth one it yields the base type name alone; applied at depth two it
/// yields exactly the public fragment of the same parameter at depth one.
pub proof fn lemma_result_type_consistent(sig: MethodSignature)
    requires
        sig.spec_kind() == SignatureKind::ResultValue,
    ensures
        sig.params@.last().signature.pointers == 1 ==> spec_result_type(sig) == seq![
            sig.params@.last().signature.kind.spec_name_token(),
        ],
        sig.params@.last().signature.pointers == 2 ==> spec_result_type(sig) == spec_param(
            MethodParam {
                param: sig.params@.last().param,
                signature: TypeSignature { kind: sig.params@.last().signature.kind, pointers: 1 },
            },
        ),
{
    let p = sig.params@.last();
    if p.signature.pointers == 2 {
        assert(spec_result_type(sig) =~= spec_param(
            MethodParam {
                param: p.param,
                signature: TypeSignature { kind: p.signature.kind, pointers: 1 },
            },
        ));
    }
}

/// The public parameter list never changes parameter order or count: each of
/// its pieces opens with the declared name of its parameter, in call order —
/// only the declared type and the argument construction differ from the raw
/// list.
pub proof fn lemma_public_params_keep_order(params: Seq<MethodParam>)
    ensures
        params.map_values(|p: MethodParam| spec_public_param_piece(p)[0]) == params.map_values(
            |p: MethodParam| Token::Ident(p.param.name),
        ),
{
    assert forall|i: int| 0 <= i < params.len() implies spec_public_param_piece(params[i])[0]
        == Token::Ident(params[i].param.name) by {
        let p = params[i];
        assert(spec_public_param_piece(p)[0] == Token::Ident(p.param.name));
    }
    assert(params.map_values(|p: MethodParam| spec_public_param_piece(p)[0])
        =~= params.map_values(|p: MethodParam| Token::Ident(p.param.name)));
}

/// The identifier a call-site argument fragment forwards, once its conversion
/// wrapper is stripped.
pub open spec fn spec_stripped_arg(s: Seq<Token>) -> Token {
    if s.len() >= 3 && s[0] == Token::Transmute {
        s[2]
    } else {
        s[0]
    }
}

/// Round-trip of a pass-through signature: the call-site argument fragments,
/// stripped of their conversion wrappers, name exactly the parameters the raw
/// declaration declares, in the same order and the same number.
pub proof fn lemma_preserve_sig_round_trip(sig: MethodSignature)
    requires
        sig.spec_kind() == SignatureKind::PreserveSig,
    ensures
        forall|i: int|
            0 <= i < sig.params@.len() ==> spec_stripped_arg(spec_abi_arg(sig.params@[i]))
                == Token::Ident(sig.params@[i].param.name),
        sig.params@.map_values(|p: MethodParam| spec_stripped_arg(spec_abi_arg(p)))
            == sig.params@.map_values(|p: MethodParam| spec_abi_param_piece(p)[0]),
{
    assert forall|i: int| 0 <= i < sig.params@.len() implies spec_stripped_arg(
        spec_abi_arg(sig.params@[i]),
    ) == Token::Ident(sig.params@[i].param.name) by {
        let p = sig.params@[i];
        if p.spec_is_convertible() {
            assert(spec_abi_arg(p)[0] == Token::Ident(p.param.name));
        } else {
            assert(spec_abi_arg(p)[0] == Token::Transmute);
            assert(spec_abi_arg(p)[2] == Token::Ident(p.param.name));
        }
    }
    assert forall|i: int| 0 <= i < sig.params@.len() implies spec_abi_param_piece(
        sig.params@[i],
    )[0] == Token::Ident(sig.params@[i].param.name) by {
        let p = sig.params@[i];
        assert(spec_abi_param_piece(p)[0] == Token::Ident(p.param.name));
    }
    assert(sig.params@.map_values(|p: MethodParam| spec_stripped_arg(spec_abi_arg(p)))
        =~= sig.params@.map_values(|p: MethodParam| spec_abi_param_piece(p)[0]));
}

} // verus!
