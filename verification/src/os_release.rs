//! The expected text of a stub image's embedded `.osrel` metadata section.
//!
//! A generated stub carries a PE section of `KEY=VALUE` lines whose
//! `VERSION_ID` names the generation's ordinal number and build date. The
//! function here renders that exact text for a generation, so that a caller
//! can compare it byte for byte against what `crate::pe::pe_section`
//! extracted from the image.

use vstd::prelude::*;

use crate::strutil::spec_decimal;

verus! {

/// The exact os-release text expected inside a generation's stub image.
/// `built_on` is the generation's creation date, truncated to day
/// granularity and already rendered as text by the caller.
pub open spec fn spec_os_release(version: nat, built_on: Seq<char>) -> Seq<char> {
    "ID=lanza\nPRETTY_NAME=LanzaOS\nVERSION_ID=Generation "@ + spec_decimal(version)
        + ", Built on "@ + built_on + "\n"@
}

/// Render the os-release text expected for a generation built on the given
/// date.
pub fn expected_os_release(version: u64, built_on: &str) -> (r: String)
    ensures
        r@ == spec_os_release(version as nat, built_on@),
{
    let mut out = "ID=lanza\nPRETTY_NAME=LanzaOS\nVERSION_ID=Generation ".to_owned();
    let version_text = crate::strutil::decimal_text(version);
    out.append(version_text.as_str());
    out.append(", Built on ");
    out.append(built_on);
    out.append("\n");
    out
}

} // verus!
