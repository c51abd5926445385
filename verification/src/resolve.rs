use vstd::prelude::*;

use crate::errors::SortError;
use crate::text::{eq_icase, eq_ignore_case};

verus! {

/// The fixed set of well-known folders a template name can stand for. The
/// caller maps a kind to the platform's actual directory; resolving the
/// name is pure and has no side effects.
#[derive(Clone, Copy, Debug, PartialEq, Eq, Structural)]
pub enum TemplateKind {
    Documents,
    Downloads,
    Desktop,
    Home,
    Music,
    Pictures,
    Videos,
}

/// Which folder a template name denotes, up to ASCII case. `music` and
/// `audio` name the same folder, as do `videos` and `movies`; any other
/// name denotes nothing.
pub open spec fn spec_template_kind(s: Seq<char>) -> Option<TemplateKind> {
    if eq_icase(s, "documents"@) {
        Some(TemplateKind::Documents)
    } else if eq_icase(s, "downloads"@) {
        Some(TemplateKind::Downloads)
    } else if eq_icase(s, "desktop"@) {
        Some(TemplateKind::Desktop)
    } else if eq_icase(s, "home"@) {
        Some(TemplateKind::Home)
    } else if eq_icase(s, "music"@) || eq_icase(s, "audio"@) {
        Some(TemplateKind::Music)
    } else if eq_icase(s, "pictures"@) {
        Some(TemplateKind::Pictures)
    } else if eq_icase(s, "videos"@) || eq_icase(s, "movies"@) {
        Some(TemplateKind::Videos)
    } else {
        None
    }
}

/// Resolve a template name to the folder kind it stands for; a name
/// outside the fixed set is the `UnknownTemplate` error.
pub fn template_kind(name: &str) -> (r: Result<TemplateKind, SortError>)
    ensures
        r matches Ok(k) ==> spec_template_kind(name@) == Some(k),
        (r is Err) == (spec_template_kind(name@) is None),
        r matches Err(e) ==> e == SortError::UnknownTemplate,
{
    if eq_ignore_case(name, "documents") {
        Ok(TemplateKind::Documents)
    } else if eq_ignore_case(name, "downloads") {
        Ok(TemplateKind::Downloads)
    } else if eq_ignore_case(name, "desktop") {
        Ok(TemplateKind::Desktop)
    } else if eq_ignore_case(name, "home") {
        Ok(TemplateKind::Home)
    } else if eq_ignore_case(name, "music") || eq_ignore_case(name, "audio") {
        Ok(TemplateKind::Music)
    } else if eq_ignore_case(name, "pictures") {
        Ok(TemplateKind::Pictures)
    } else if eq_ignore_case(name, "videos") || eq_ignore_case(name, "movies") {
        Ok(TemplateKind::Videos)
    } else {
        Err(SortError::UnknownTemplate)
    }
}

} // verus!
