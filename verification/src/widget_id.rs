//! Stable identifiers for menus.
//!
//! A menu is recognised across redraws by the text of its identifier, never
//! by where it lives in memory. The identifier keeps a digest of its text so
//! that two unequal identifiers are usually told apart without comparing
//! their characters.
use std::collections::hash_map::DefaultHasher;
use std::hash::Hasher;
use vstd::prelude::*;
use vstd::std_specs::cmp::PartialEqSpecImpl;
use vstd::std_specs::hash::DefaultHasherAdditionalSpecFns;

verus! {

/// The digest that an identifier with the text `name` carries: what the
/// standard hasher reports after the UTF-8 bytes of `name` were written to it
/// in one piece.
pub open spec fn name_digest(name: Seq<char>) -> u64 {
    DefaultHasher::spec_finish(seq![vstd::utf8::encode_utf8(name)])
}

/// Computes [`name_digest`] of a string.
fn digest_of(name: &str) -> (digest: u64)
    ensures
        digest == name_digest(name@),
{
    let mut hasher = DefaultHasher::new();
    hasher.write(name.as_bytes());
    hasher.finish()
}

/// The identifier of a menu. Its view is the sequence of its characters, and
/// two identifiers are equal exactly when their views are.
#[derive(Debug, Hash)]
pub struct WidgetId {
    id: String,
    hash: u64,
}

impl View for WidgetId {
    type V = Seq<char>;

    closed spec fn view(&self) -> Seq<char> {
        self.id@
    }
}

impl WidgetId {
    /// The cached digest always belongs to the current text.
    #[verifier::type_invariant]
    spec fn digest_is_current(self) -> bool {
        self.hash == name_digest(self.id@)
    }

    /// The text of the identifier as an owned string, for contracts that
    /// hand it to a caller's function.
    pub closed spec fn text(&self) -> String {
        self.id
    }

    /// The view is the view of the text.
    pub broadcast proof fn lemma_text_view(&self)
        ensures
            #[trigger] self.text()@ == self@,
    {
    }

    /// Creates an identifier from any string-like value. The digest is
    /// computed immediately.
    pub fn new(name: impl IntoWidgetId) -> (id: Self)
        ensures
            id@ == name.name(),
    {
        name.into_widget_id()
    }

    /// Replaces the text. The digest is computed anew.
    pub fn set(&mut self, name: impl IntoWidgetId)
        ensures
            final(self)@ == name.name(),
    {
        *self = WidgetId::new(name);
    }

    /// Lets `f` rewrite the text, then computes the digest anew.
    pub fn mutate<F: FnOnce(String) -> String>(&mut self, f: F)
        requires
            call_requires(f, (old(self).text(),)),
        ensures
            call_ensures(f, (old(self).text(),), final(self).text()),
    {
        let text = f(self.id.clone());
        let hash = digest_of(text.as_str());
        *self = WidgetId { id: text, hash };
    }

    /// The text of the identifier.
    pub fn as_str(&self) -> (text: &str)
        ensures
            text@ == self@,
    {
        self.id.as_str()
    }
}

impl Clone for WidgetId {
    fn clone(&self) -> (copy: Self)
        ensures
            copy == *self,
    {
        proof {
            use_type_invariant(self);
        }
        WidgetId { id: self.id.clone(), hash: self.hash }
    }
}

impl PartialEq for WidgetId {
    /// Compares the digests first and the texts only where the digests agree.
    fn eq(&self, other: &Self) -> (same: bool) {
        proof {
            use_type_invariant(self);
            use_type_invariant(other);
        }
        if self.hash != other.hash {
            return false;
        }
        self.id == other.id
    }
}

impl Eq for WidgetId {

}

impl PartialEqSpecImpl for WidgetId {
    open spec fn obeys_eq_spec() -> bool {
        true
    }

    open spec fn eq_spec(&self, other: &Self) -> bool {
        self@ == other@
    }
}

/// What can name a menu: string slices, owned strings and identifiers
/// themselves.
pub trait IntoWidgetId: Sized {
    /// The characters of the identifier that `self` turns into.
    spec fn name(self) -> Seq<char>;

    /// Builds the identifier.
    fn into_widget_id(self) -> (id: WidgetId)
        ensures
            id@ == self.name(),
    ;
}

impl IntoWidgetId for &str {
    open spec fn name(self) -> Seq<char> {
        self@
    }

    fn into_widget_id(self) -> (id: WidgetId) {
        let hash = digest_of(self);
        WidgetId { id: self.to_owned(), hash }
    }
}

impl IntoWidgetId for String {
    open spec fn name(self) -> Seq<char> {
        self@
    }

    fn into_widget_id(self) -> (id: WidgetId) {
        let hash = digest_of(self.as_str());
        WidgetId { id: self, hash }
    }
}

impl IntoWidgetId for &String {
    open spec fn name(self) -> Seq<char> {
        self@
    }

    fn into_widget_id(self) -> (id: WidgetId) {
        let hash = digest_of(self.as_str());
        WidgetId { id: self.clone(), hash }
    }
}

impl IntoWidgetId for WidgetId {
    open spec fn name(self) -> Seq<char> {
        self@
    }

    fn into_widget_id(self) -> (id: WidgetId) {
        self
    }
}

impl IntoWidgetId for &WidgetId {
    open spec fn name(self) -> Seq<char> {
        self@
    }

    fn into_widget_id(self) -> (id: WidgetId) {
        self.clone()
    }
}

} // verus!
