//! The signature model: immutable descriptions of native methods, and the
//! classifier that derives which calling convention a description follows.

use vstd::prelude::*;

use crate::tokens::Token;

verus! {

/// The base kind of a type reference, together with the names the emitters
/// print for it and the capabilities the metadata side-table records.
#[derive(Debug)]
pub enum TypeKind {
    /// A language primitive, or an enumeration-like named type whose ABI
    /// representation is a primitive: `name` is the logical name, `abi` the
    /// bit-compatible one (for a plain primitive the two coincide).
    Primitive { name: String, abi: String },
    /// A user-defined record type. `convertible` records whether the type
    /// accepts borrowed-or-owned values through an implicit conversion at the
    /// public call site.
    Udt { name: String, abi: String, convertible: bool },
    /// An interface reference; its ABI representation is an opaque raw pointer,
    /// and it always accepts convertible values.
    Interface { name: String },
}

impl TypeKind {
    /// Whether the kind is a user-defined record type.
    pub open spec fn spec_is_udt(&self) -> bool {
        self is Udt
    }

    #[verifier::when_used_as_spec(spec_is_udt)]
    pub fn is_udt(&self) -> (b: bool)
        ensures
            b == self.spec_is_udt(),
    {
        match self {
            TypeKind::Udt { .. } => true,
            _ => false,
        }
    }

    /// Whether a value of the kind can be accepted through the implicit
    /// borrowed-or-owned conversion at the public call site.
    pub open spec fn spec_is_convertible(&self) -> bool {
        match self {
            TypeKind::Primitive { .. } => false,
            TypeKind::Udt { convertible, .. } => *convertible,
            TypeKind::Interface { .. } => true,
        }
    }

    #[verifier::when_used_as_spec(spec_is_convertible)]
    pub fn is_convertible(&self) -> (b: bool)
        ensures
            b == self.spec_is_convertible(),
    {
        match self {
            TypeKind::Primitive { .. } => false,
            TypeKind::Udt { convertible, .. } => *convertible,
            TypeKind::Interface { .. } => true,
        }
    }

    /// The token naming the type at the public, logical surface.
    pub open spec fn spec_name_token(self) -> Token {
        match self {
            TypeKind::Primitive { name, .. } => Token::Ident(name),
            TypeKind::Udt { name, .. } => Token::Ident(name),
            TypeKind::Interface { name } => Token::Ident(name),
        }
    }

    pub fn name_token(&self) -> (t: Token)
        ensures
            t == self.spec_name_token(),
    {
        match self {
            TypeKind::Primitive { name, .. } => Token::Ident(name.clone()),
            TypeKind::Udt { name, .. } => Token::Ident(name.clone()),
            TypeKind::Interface { name } => Token::Ident(name.clone()),
        }
    }

    /// The token naming the kind's bit-compatible ABI representation: the
    /// primitive representation of a primitive or enumeration-like kind, the
    /// ABI form of a record, an opaque raw pointer for an interface.
    pub open spec fn spec_abi_token(self) -> Token {
        match self {
            TypeKind::Primitive { abi, .. } => Token::Ident(abi),
            TypeKind::Udt { abi, .. } => Token::Ident(abi),
            TypeKind::Interface { .. } => Token::RawPtr,
        }
    }

    pub fn abi_token(&self) -> (t: Token)
        ensures
            t == self.spec_abi_token(),
    {
        match self {
            TypeKind::Primitive { abi, .. } => Token::Ident(abi.clone()),
            TypeKind::Udt { abi, .. } => Token::Ident(abi.clone()),
            TypeKind::Interface { .. } => Token::RawPtr,
        }
    }
}

/// A type reference: a base kind under `pointers` levels of indirection.
#[derive(Debug)]
pub struct TypeSignature {
    pub kind: TypeKind,
    pub pointers: usize,
}

/// Direction flags carried on a raw parameter descriptor.
#[derive(Debug)]
pub struct ParamFlags {
    pub input: bool,
    pub output: bool,
    pub optional: bool,
}

/// A raw parameter descriptor: the parameter's name and its direction flags.
#[derive(Debug)]
pub struct ParamInfo {
    pub name: String,
    pub flags: ParamFlags,
}

/// A method parameter: the raw descriptor paired with its type signature.
#[derive(Debug)]
pub struct MethodParam {
    pub param: ParamInfo,
    pub signature: TypeSignature,
}

impl MethodParam {
    /// Whether the public call site accepts this parameter through the
    /// implicit conversion — a property of the underlying kind, not of the
    /// parameter itself.
    pub open spec fn spec_is_convertible(&self) -> bool {
        self.signature.kind.spec_is_convertible()
    }

    #[verifier::when_used_as_spec(spec_is_convertible)]
    pub fn is_convertible(&self) -> (b: bool)
        ensures
            b == self.spec_is_convertible(),
    {
        self.signature.kind.is_convertible()
    }
}

/// How the described method reports failure, as the metadata carries it.
#[derive(Debug, Clone, Copy, PartialEq, Eq)]
pub enum ErrorStyle {
    /// Failure comes back out-of-band as a native status code; any success
    /// value travels through the final output parameter.
    StatusCode,
    /// The native return value is handed through unchanged.
    Preserve,
    /// The method is an interface identity query.
    IdentityQuery,
}

/// An ordered parameter list, an optional direct return type, and the
/// error-reporting intent. Parameter order is call order. The return slot is
/// present only when the convention returns a value directly in the native
/// ABI; for the status-code conventions the native return is the status type
/// itself and the slot stays empty.
#[derive(Debug)]
pub struct MethodSignature {
    pub params: Vec<MethodParam>,
    pub return_sig: Option<TypeSignature>,
    pub style: ErrorStyle,
}

/// The closed set of calling conventions a signature can follow.
#[derive(Debug, Clone, Copy, PartialEq, Eq, Structural)]
pub enum SignatureKind {
    /// An interface identity query: recognized, never emitted.
    QueryInterface,
    /// Status code out-of-band; the success value fills the last parameter,
    /// an output pointer.
    ResultValue,
    /// Status code out-of-band; no success value.
    ResultVoid,
    /// An aggregate returned through a hidden pointer: recognized, never
    /// emitted.
    ReturnStruct,
    /// The native return value is the program's return value.
    PreserveSig,
}

impl MethodSignature {
    /// A signature is well formed when the direct return slot is used only by
    /// the pass-through conventions; the status-code conventions return the
    /// status type itself.
    pub open spec fn wf(self) -> bool {
        self.style != ErrorStyle::Preserve ==> self.return_sig is None
    }

    /// The convention the signature follows, derived from its shape alone: the
    /// error-reporting intent, the presence and kind of the direct return
    /// slot, and whether the last parameter is an output pointer. Names are
    /// never consulted.
    pub open spec fn spec_kind(&self) -> SignatureKind {
        match self.style {
            ErrorStyle::IdentityQuery => SignatureKind::QueryInterface,
            ErrorStyle::StatusCode => {
                if self.params@.len() > 0 && self.params@.last().param.flags.output
                    && self.params@.last().signature.pointers >= 1 {
                    SignatureKind::ResultValue
                } else {
                    SignatureKind::ResultVoid
                }
            },
            ErrorStyle::Preserve => {
                match self.return_sig {
                    Some(t) => {
                        if t.kind.spec_is_udt() {
                            SignatureKind::ReturnStruct
                        } else {
                            SignatureKind::PreserveSig
                        }
                    },
                    None => SignatureKind::PreserveSig,
                }
            },
        }
    }

    #[verifier::when_used_as_spec(spec_kind)]
    pub fn kind(&self) -> (k: SignatureKind)
        ensures
            k == self.spec_kind(),
    {
        match self.style {
            ErrorStyle::IdentityQuery => SignatureKind::QueryInterface,
            ErrorStyle::StatusCode => {
                let n = self.params.len();
                if n > 0 && self.params[n - 1].param.flags.output
                    && self.params[n - 1].signature.pointers >= 1 {
                    SignatureKind::ResultValue
                } else {
                    SignatureKind::ResultVoid
                }
            },
            ErrorStyle::Preserve => {
                match &self.return_sig {
                    Some(t) => {
                        if t.kind.is_udt() {
                            SignatureKind::ReturnStruct
                        } else {
                            SignatureKind::PreserveSig
                        }
                    },
                    None => SignatureKind::PreserveSig,
                }
            },
        }
    }
}

/// A signature classified as the value-returning status-code convention always
/// has at least one parameter, and its last parameter — the success-value
/// carrier — is an output pointer.
pub proof fn lemma_result_value_last_param_is_output(sig: MethodSignature)
    requires
        sig.spec_kind() == SignatureKind::ResultValue,
    ensures
        sig.params@.len() > 0,
        sig.params@.last().param.flags.output,
        sig.params@.last().signature.pointers >= 1,
{
}

} // verus!
