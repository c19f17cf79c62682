//! The metadata schema for an annotated error type, and its validation.
//!
//! Per variant the schema carries a required short code, an optional
//! textual application code (the empty string means "not specified"), and
//! an optional client message (the empty string means "fall back to the
//! server message"). Per type it carries the application-code type's name
//! and a prefix that namespaces every short code.
//!
//! Validation fails loudly at generation time, naming the offending
//! variant; a failure never reaches the consuming program's runtime.

use vstd::prelude::*;
use vstd::string::StringExecFns;

verus! {

/// The metadata attached to one variant of an annotated error type.
#[derive(Debug)]
pub struct VariantMetadata {
    /// The variant's name.
    pub ident: String,
    /// The short, human-assigned code for this variant; must be non-empty.
    pub short_code: String,
    /// The textual application code; empty means "not specified".
    pub app_code: String,
    /// The client-safe message; empty means "fall back to the server message".
    pub client_msg: String,
}

/// The shape of the annotated type: only a closed set of variants can be
/// mapped exhaustively; a record (struct) shape is rejected.
#[derive(Debug)]
pub enum TypeData {
    Variants(Vec<VariantMetadata>),
    Record,
}

/// The metadata attached to the annotated type itself, with its shape.
#[derive(Debug)]
pub struct TypeMetadata {
    /// The annotated type's name.
    pub ident: String,
    /// The name of the type that application codes are parsed into.
    pub app_code_type: String,
    /// Prepended to every variant's short code to form its final code.
    pub prefix: String,
    pub data: TypeData,
}

/// A generation-time failure. Each carries enough to name the offending
/// variant in a diagnostic.
#[derive(Debug)]
pub enum GenError {
    /// The annotated type is not a closed-set (tagged-union) type.
    NotClosedSet,
    /// The variant at `index`, named `variant`, has an empty short code.
    EmptyShortCode { index: usize, variant: String },
    /// The variant at `index`, named `variant`, repeats the short code of
    /// the earlier variant at `first_index`.
    DuplicateShortCode { first_index: usize, index: usize, variant: String },
}

/// The variants of a closed-set type's metadata.
pub open spec fn variants_of(m: &TypeMetadata) -> Seq<VariantMetadata>
    recommends
        m.data is Variants,
{
    m.data->Variants_0@
}

/// The first `n` variants are valid: short codes non-empty and pairwise
/// distinct.
pub open spec fn prefix_valid(vs: Seq<VariantMetadata>, n: int) -> bool {
    &&& forall|i: int| 0 <= i < n ==> vs[i].short_code@.len() > 0
    &&& forall|i: int, j: int| 0 <= i < j < n ==> vs[i].short_code@ != vs[j].short_code@
}

/// A metadata record is valid when the type is a closed set whose
/// variants all carry a non-empty short code, no two alike.
pub open spec fn valid_metadata(m: &TypeMetadata) -> bool {
    &&& m.data is Variants
    &&& prefix_valid(variants_of(m), variants_of(m).len() as int)
}

/// What a reported generation error says of the metadata it was reported
/// for: the named variant is the first offender, everything before it
/// being valid.
pub open spec fn gen_error_describes(m: &TypeMetadata, e: GenError) -> bool {
    match e {
        GenError::NotClosedSet => !(m.data is Variants),
        GenError::EmptyShortCode { index, variant } => {
            &&& m.data is Variants
            &&& index < variants_of(m).len()
            &&& variants_of(m)[index as int].short_code@.len() == 0
            &&& variant@ == variants_of(m)[index as int].ident@
            &&& prefix_valid(variants_of(m), index as int)
        },
        GenError::DuplicateShortCode { first_index, index, variant } => {
            &&& m.data is Variants
            &&& first_index < index < variants_of(m).len()
            &&& variants_of(m)[first_index as int].short_code@ == variants_of(m)[index
                as int].short_code@
            &&& variant@ == variants_of(m)[index as int].ident@
            &&& prefix_valid(variants_of(m), index as int)
        },
    }
}

/// Validates metadata against the schema: the type must be a closed set,
/// and every variant must carry a non-empty short code not repeated by
/// any other variant. Returns `Ok` exactly on valid metadata; otherwise
/// the error names the first offending variant.
pub fn validate(m: &TypeMetadata) -> (r: Result<(), GenError>)
    ensures
        r is Ok <==> valid_metadata(m),
        r matches Err(e) ==> gen_error_describes(m, e),
{
    match &m.data {
        TypeData::Record => Err(GenError::NotClosedSet),
        TypeData::Variants(vs) => {
            let n = vs.len();
            let mut i: usize = 0;
            while i < n
                invariant
                    i <= n,
                    n == vs@.len(),
                    vs@ == variants_of(m),
                    m.data is Variants,
                    prefix_valid(vs@, i as int),
                decreases n - i,
            {
                if vs[i].short_code.as_str().is_empty() {
                    return Err(GenError::EmptyShortCode { index: i, variant: vs[i].ident.clone() });
                }
                let mut j: usize = 0;
                while j < i
                    invariant
                        j <= i < n,
                        n == vs@.len(),
                        vs@ == variants_of(m),
                        m.data is Variants,
                        prefix_valid(vs@, i as int),
                        forall|k: int| 0 <= k < j ==> vs@[k].short_code@ != vs@[i as int].short_code@,
                    decreases i - j,
                {
                    if vs[j].short_code == vs[i].short_code {
                        return Err(GenError::DuplicateShortCode {
                            first_index: j,
                            index: i,
                            variant: vs[i].ident.clone(),
                        });
                    }
                    j += 1;
                }
                i += 1;
            }
            Ok(())
        },
    }
}

/// The diagnostic text of a generation error, as a function of the error.
pub open spec fn gen_error_message_of(e: GenError) -> Seq<char> {
    match e {
        GenError::NotClosedSet => "only closed-set error types are supported"@,
        GenError::EmptyShortCode { index: _, variant } => "empty short code on variant "@
            + variant@,
        GenError::DuplicateShortCode { first_index: _, index: _, variant } => "duplicate short code on variant "@
            + variant@,
    }
}

impl GenError {
    /// The descriptive message of this failure, naming the offending
    /// variant where there is one.
    pub fn message(&self) -> (r: String)
        ensures
            r@ == gen_error_message_of(*self),
    {
        match self {
            GenError::NotClosedSet => "only closed-set error types are supported".to_owned(),
            GenError::EmptyShortCode { index: _, variant } => {
                let mut r = String::new();
                r.append("empty short code on variant ");
                r.append(variant.as_str());
                proof {
                    assert(r@ =~= gen_error_message_of(*self));
                }
                r
            },
            GenError::DuplicateShortCode { first_index: _, index: _, variant } => {
                let mut r = String::new();
                r.append("duplicate short code on variant ");
                r.append(variant.as_str());
                proof {
                    assert(r@ =~= gen_error_message_of(*self));
                }
                r
            },
        }
    }
}

} // verus!
