//! The token alphabet of the emitted fragments.

use vstd::prelude::*;

verus! {

/// One lexical token of an emitted code fragment.
///
/// Punctuation, keywords and the paths the generated code spells out are fixed
/// variants; only names drawn from the signature model are carried as strings.
#[derive(Debug, PartialEq, Eq)]
pub enum Token {
    /// `(`
    LParen,
    /// `)`
    RParen,
    /// `{`
    LBrace,
    /// `}`
    RBrace,
    /// `<`
    Lt,
    /// `>`
    Gt,
    /// `:`
    Colon,
    /// `,`
    Comma,
    /// `;`
    Semi,
    /// `->`
    Arrow,
    /// `=>`
    FatArrow,
    /// `*` (dereference of an output location)
    Star,
    /// `&`
    Amp,
    /// `=`
    Assign,
    /// `.`
    Dot,
    /// `match`
    KwMatch,
    /// `impl`
    KwImpl,
    /// `*const`, a read-only pointer decoration
    ConstPtr,
    /// `*mut`, a mutable pointer decoration
    MutPtr,
    /// `'a`
    LifetimeA,
    /// `0`
    Zero,
    /// `this`, the implicit interface pointer of a raw declaration
    This,
    /// `result__`, the slot synthesized for an aggregate return
    ResultSlot,
    /// `ok__`, the binding for a successful outcome in a bridge body
    OkBind,
    /// `err`, the binding for a failed outcome in a bridge body
    ErrBind,
    /// `::windows::RawPtr`
    RawPtr,
    /// `::windows::HRESULT`
    Hresult,
    /// `::windows::IntoParam`
    IntoParamTrait,
    /// `::std::result::Result::Ok`
    ResultOk,
    /// `::std::result::Result::Err`
    ResultErr,
    /// `::std::mem::transmute`
    Transmute,
    /// `::std::mem::transmute_copy`
    TransmuteCopy,
    /// `::std::mem::forget`
    Forget,
    /// `into_param`, the conversion entry of a convertible argument
    IntoParamFn,
    /// `abi`, the raw-representation accessor of a converted argument
    AbiFn,
    /// `into`, the status-code conversion of a bridge outcome
    IntoFn,
    /// A name taken from the signature model: a parameter or type name.
    Ident(String),
}

/// A growable sequence of tokens; the unit every emitter returns.
#[derive(Debug, PartialEq, Eq)]
pub struct TokenStream {
    pub toks: Vec<Token>,
}

impl View for TokenStream {
    type V = Seq<Token>;

    open spec fn view(&self) -> Seq<Token> {
        self.toks@
    }
}

impl TokenStream {
    pub fn new() -> (r: TokenStream)
        ensures
            r@ == Seq::<Token>::empty(),
    {
        TokenStream { toks: Vec::new() }
    }

    pub fn push(&mut self, t: Token)
        ensures
            final(self)@ == old(self)@.push(t),
    {
        self.toks.push(t);
    }

    /// Appends every token of `other`, in order, after the tokens already held.
    pub fn append(&mut self, other: TokenStream)
        ensures
            final(self)@ == old(self)@ + other@,
    {
        let mut rest = other;
        self.toks.append(&mut rest.toks);
    }
}

} // verus!
