//! The generator: turns validated metadata into the mapping
//! implementation for the annotated type — exactly one match arm per
//! variant, no catch-all — first as structured arms, then as ordinary
//! source text.
//!
//! On invalid metadata it fails with the validation error and produces no
//! output at all.

use vstd::prelude::*;
use vstd::string::StringExecFns;
use crate::metadata::{
    gen_error_describes, valid_metadata, validate, variants_of, GenError, TypeMetadata,
    VariantMetadata,
};

verus! {

/// One generated match arm: the variant it covers, the final code
/// (prefix + short code), and the metadata texts handed to the record
/// constructor.
#[derive(Debug)]
pub struct GeneratedArm {
    pub variant_ident: String,
    pub code: String,
    pub app_code: String,
    pub client_msg: String,
}

/// The generated mapping implementation for one error type.
#[derive(Debug)]
pub struct GeneratedImpl {
    pub type_ident: String,
    pub app_code_type: String,
    pub arms: Vec<GeneratedArm>,
}

/// The arm generated for a variant: its name and optional texts are
/// carried over, and its final code is the prefix followed by its short
/// code.
pub open spec fn arm_matches(prefix: Seq<char>, v: VariantMetadata, a: GeneratedArm) -> bool {
    &&& a.variant_ident@ == v.ident@
    &&& a.code@ == prefix + v.short_code@
    &&& a.app_code@ == v.app_code@
    &&& a.client_msg@ == v.client_msg@
}

/// The generated implementation covers the metadata exactly: one arm per
/// variant, in order, each matching its variant.
pub open spec fn impl_matches(m: &TypeMetadata, g: GeneratedImpl) -> bool {
    &&& g.type_ident@ == m.ident@
    &&& g.app_code_type@ == m.app_code_type@
    &&& g.arms@.len() == variants_of(m).len()
    &&& forall|i: int|
        0 <= i < g.arms@.len() ==> arm_matches(m.prefix@, variants_of(m)[i], g.arms@[i])
}

/// Validates the metadata and generates the mapping implementation:
/// succeeds exactly on valid metadata, with one arm per variant whose
/// code is the prefix followed by the variant's short code; on invalid
/// metadata it reports the first offending variant and produces nothing.
pub fn generate(m: &TypeMetadata) -> (r: Result<GeneratedImpl, GenError>)
    ensures
        r is Ok <==> valid_metadata(m),
        r matches Ok(g) ==> impl_matches(m, g),
        r matches Err(e) ==> gen_error_describes(m, e),
{
    match validate(m) {
        Err(e) => Err(e),
        Ok(()) => {
            let vs = match &m.data {
                crate::metadata::TypeData::Variants(vs) => vs,
                crate::metadata::TypeData::Record => {
                    return Err(GenError::NotClosedSet);
                },
            };
            let n = vs.len();
            let mut arms: Vec<GeneratedArm> = Vec::new();
            let mut i: usize = 0;
            while i < n
                invariant
                    i <= n,
                    n == vs@.len(),
                    vs@ == variants_of(m),
                    m.data is Variants,
                    arms@.len() == i,
                    forall|k: int| 0 <= k < i ==> arm_matches(m.prefix@, vs@[k], arms@[k]),
                decreases n - i,
            {
                let mut code = m.prefix.clone();
                code.append(vs[i].short_code.as_str());
                let arm = GeneratedArm {
                    variant_ident: vs[i].ident.clone(),
                    code,
                    app_code: vs[i].app_code.clone(),
                    client_msg: vs[i].client_msg.clone(),
                };
                arms.push(arm);
                i += 1;
            }
            Ok(GeneratedImpl { type_ident: m.ident.clone(), app_code_type: m.app_code_type.clone(), arms })
        },
    }
}

/// The source text of one generated match arm.
pub open spec fn rendered_arm(type_ident: Seq<char>, a: GeneratedArm) -> Seq<char> {
    "            "@ + type_ident + "::"@ + a.variant_ident@
        + "(_) => ErrorInfo::new(\""@ + a.app_code@
        + "\", \""@ + a.code@
        + "\", \""@ + a.client_msg@
        + "\", format!(\"{}\", self)),\n"@
}

/// The source text of the first `n` arms, in order.
pub open spec fn rendered_arms(type_ident: Seq<char>, arms: Seq<GeneratedArm>) -> Seq<char>
    decreases arms.len(),
{
    if arms.len() == 0 {
        Seq::empty()
    } else {
        rendered_arms(type_ident, arms.drop_last()) + rendered_arm(type_ident, arms.last())
    }
}

/// The full source text of a generated implementation.
pub open spec fn rendered_impl(g: &GeneratedImpl) -> Seq<char> {
    "impl ToErrorInfo for "@ + g.type_ident@
        + " {\n    type T = "@ + g.app_code_type@
        + ";\n\n    fn to_error_info(&self) -> Result<ErrorInfo<Self::T>, AppCodeParseError> {\n        match self {\n"@
        + rendered_arms(g.type_ident@, g.arms@)
        + "        }\n    }\n}\n"@
}

fn render_arm(type_ident: &str, a: &GeneratedArm) -> (r: String)
    ensures
        r@ == rendered_arm(type_ident@, *a),
{
    let mut r = String::new();
    r.append("            ");
    r.append(type_ident);
    r.append("::");
    r.append(a.variant_ident.as_str());
    r.append("(_) => ErrorInfo::new(\"");
    r.append(a.app_code.as_str());
    r.append("\", \"");
    r.append(a.code.as_str());
    r.append("\", \"");
    r.append(a.client_msg.as_str());
    r.append("\", format!(\"{}\", self)),\n");
    proof {
        assert(r@ =~= rendered_arm(type_ident@, *a));
    }
    r
}

/// Renders the generated implementation as ordinary source text, one
/// match arm per variant in metadata order.
pub fn render(g: &GeneratedImpl) -> (r: String)
    ensures
        r@ == rendered_impl(g),
{
    let mut r = String::new();
    r.append("impl ToErrorInfo for ");
    r.append(g.type_ident.as_str());
    r.append(" {\n    type T = ");
    r.append(g.app_code_type.as_str());
    r.append(";\n\n    fn to_error_info(&self) -> Result<ErrorInfo<Self::T>, AppCodeParseError> {\n        match self {\n");
    let ghost header: Seq<char> = r@;
    let n = g.arms.len();
    let mut i: usize = 0;
    while i < n
        invariant
            i <= n,
            n == g.arms@.len(),
            r@ == header + rendered_arms(g.type_ident@, g.arms@.take(i as int)),
        decreases n - i,
    {
        let arm_text = render_arm(g.type_ident.as_str(), &g.arms[i]);
        r.append(arm_text.as_str());
        proof {
            assert(g.arms@.take(i + 1 as int).drop_last() =~= g.arms@.take(i as int));
            assert(g.arms@.take(i + 1 as int).last() == g.arms@[i as int]);
            assert(r@ =~= header + rendered_arms(g.type_ident@, g.arms@.take(i + 1 as int)));
        }
        i += 1;
    }
    r.append("        }\n    }\n}\n");
    proof {
        assert(g.arms@.take(n as int) =~= g.arms@);
        assert(r@ =~= rendered_impl(g));
    }
    r
}

} // verus!
