//! Classification of a candidate's encoding by its file-name extension.
//!
//! One extension names the legacy encoding that must be converted before
//! resizing (`webp`); one names the canonical encoding that conversion
//! produces (`png`); everything else is passed through untouched. The match
//! is case-sensitive and on the literal extension.

use vstd::prelude::*;

verus! {

/// The encoding class a candidate file belongs to, resolved once from its
/// extension and then matched exhaustively.
#[derive(Clone, Copy, Debug, PartialEq, Eq, Structural)]
pub enum FormatTag {
    /// The legacy encoding: converted to the canonical one before resizing.
    Legacy,
    /// The canonical encoding: the output of a conversion.
    Canonical,
    /// Any other encoding: resized as it is.
    Other,
}

/// The extension of the legacy encoding.
pub open spec fn legacy_ext() -> Seq<char> {
    "webp"@
}

/// The extension of the canonical encoding.
pub open spec fn canonical_ext() -> Seq<char> {
    "png"@
}

/// Which class an extension falls in.
pub open spec fn format_of_spec(ext: Seq<char>) -> FormatTag {
    if ext == legacy_ext() {
        FormatTag::Legacy
    } else if ext == canonical_ext() {
        FormatTag::Canonical
    } else {
        FormatTag::Other
    }
}

/// Classifies a literal extension (no leading dot), case-sensitively.
pub fn format_of_extension(ext: &str) -> (r: FormatTag)
    ensures
        r == format_of_spec(ext@),
{
    let e = ext.to_owned();
    if e == "webp".to_owned() {
        FormatTag::Legacy
    } else if e == "png".to_owned() {
        FormatTag::Canonical
    } else {
        FormatTag::Other
    }
}

/// The canonical encoding's extension, as a string.
pub fn canonical_extension() -> (r: String)
    ensures
        r@ == canonical_ext(),
{
    "png".to_owned()
}

} // verus!
