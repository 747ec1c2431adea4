//! The navigation resolver: turns a navigation intent raised by the
//! embedded document into a staged pending navigation. The target is the
//! value of a form field named "url" when the submission carries one,
//! and the request's own location otherwise; the host resolves the
//! target to replacement content, which is staged for the next cycle.

use vstd::prelude::*;
use crate::content::{decode_navigation_response, decoded_or, nav_placeholder};
use crate::nav::{stage_model, NavigationState};

verus! {

/// One submitted form field.
pub struct FormEntry {
    pub name: String,
    pub value: String,
}

/// The resource submitted along with a navigation request: a form's
/// fields, or anything else.
pub enum DocumentResource {
    Form(Vec<FormEntry>),
    Other,
}

/// A navigation request: the nominal target location and the submitted
/// resource, as handed over by the embedded document engine.
pub struct NavigationOptions {
    pub url: String,
    pub document_resource: DocumentResource,
}

/// The value of the first form field named "url", if any.
pub open spec fn form_url_value(entries: Seq<FormEntry>) -> Option<Seq<char>>
    decreases entries.len(),
{
    if entries.len() == 0 {
        None
    } else if entries[0].name@ == "url"@ {
        Some(entries[0].value@)
    } else {
        form_url_value(entries.drop_first())
    }
}

/// The location a navigation request effectively targets: for a form
/// submission with a field named "url", that field's value, even where
/// it differs from the nominal location; otherwise the nominal location.
pub open spec fn effective_target_of(options: NavigationOptions) -> Seq<char> {
    match options.document_resource {
        DocumentResource::Form(entries) => match form_url_value(entries@) {
            Some(value) => value,
            None => options.url@,
        },
        DocumentResource::Other => options.url@,
    }
}

/// Scanning past a prefix without a "url" field does not change which
/// field is found.
proof fn lemma_form_url_value_skip(entries: Seq<FormEntry>, i: int)
    requires
        0 <= i <= entries.len(),
        forall|j: int| 0 <= j < i ==> entries[j].name@ != "url"@,
    ensures
        form_url_value(entries) == form_url_value(entries.skip(i)),
    decreases i,
{
    if i > 0 {
        lemma_form_url_value_skip(entries, i - 1);
        assert(entries.skip(i - 1).drop_first() =~= entries.skip(i));
    } else {
        assert(entries.skip(0) =~= entries);
    }
}

/// A form submission carrying a field named "url" navigates to the first
/// such field's value, not to the request's nominal location, even where
/// the two differ.
pub proof fn lemma_form_url_overrides(options: NavigationOptions, i: int)
    requires
        options.document_resource matches DocumentResource::Form(entries) && 0 <= i
            < entries@.len() && entries@[i].name@ == "url"@ && (forall|j: int|
            0 <= j < i ==> entries@[j].name@ != "url"@),
    ensures
        effective_target_of(options) == options.document_resource->Form_0@[i].value@,
{
    let entries = options.document_resource->Form_0;
    lemma_form_url_value_skip(entries@, i);
    assert(entries@.skip(i)[0] == entries@[i]);
}

/// The effective target location of a navigation request.
pub fn effective_target(options: &NavigationOptions) -> (url: String)
    ensures
        url@ == effective_target_of(*options),
{
    match options.document_resource {
        DocumentResource::Form(ref entries) => {
            let needle: String = "url".to_owned();
            let n = entries.len();
            let mut i: usize = 0;
            while i < n
                invariant
                    options.document_resource matches DocumentResource::Form(es) && es == *entries,
                    n == entries@.len(),
                    0 <= i <= n,
                    needle@ == "url"@,
                    forall|j: int| 0 <= j < i ==> entries@[j].name@ != "url"@,
                decreases n - i,
            {
                if entries[i].name == needle {
                    let result = entries[i].value.clone();
                    proof {
                        lemma_form_url_value_skip(entries@, i as int);
                        assert(entries@.skip(i as int)[0] == entries@[i as int]);
                        assert(form_url_value(entries@.skip(i as int))
                            == Some(entries@[i as int].value@));
                    }
                    return result;
                }
                i += 1;
            }
            proof {
                lemma_form_url_value_skip(entries@, n as int);
            }
            options.url.clone()
        },
        DocumentResource::Other => options.url.clone(),
    }
}

/// Stage the host's response to a navigation: decode it (placeholder on
/// invalid UTF-8) and record it, with the resolved location, as the
/// pending navigation, overwriting any unapplied one. The document on
/// display is not touched here; only the next cycle start applies the
/// staged pair.
pub fn stage_navigation_response(state: &mut NavigationState, response: &[u8], url: String)
    ensures
        final(state)@ == stage_model(
            old(state)@,
            decoded_or(response@, nav_placeholder()),
            url@,
        ),
{
    let html = decode_navigation_response(response);
    state.stage_pending(html, url);
}

} // verus!
