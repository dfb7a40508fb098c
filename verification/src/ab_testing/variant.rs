//! Variant labels and definitions for A/B testing.

use vstd::prelude::*;
use vstd::string::*;

verus! {

/// A variant label (e.g., "control", "v1.2-canary").
#[derive(Debug, Hash, PartialOrd, Ord)]
pub struct VariantLabel(String);

impl View for VariantLabel {
    type V = Seq<char>;

    closed spec fn view(&self) -> Seq<char> {
        self.0@
    }
}

impl PartialEq for VariantLabel {
    fn eq(&self, other: &Self) -> (r: bool) {
        self.0 == other.0
    }
}

impl vstd::std_specs::cmp::PartialEqSpecImpl for VariantLabel {
    open spec fn obeys_eq_spec() -> bool {
        true
    }

    open spec fn eq_spec(&self, other: &Self) -> bool {
        self@ == other@
    }
}

impl Eq for VariantLabel {}

impl Clone for VariantLabel {
    fn clone(&self) -> (r: Self)
        ensures
            r@ == self@,
    {
        VariantLabel(self.0.clone())
    }
}

impl From<&str> for VariantLabel {
    fn from(s: &str) -> (r: Self)
        ensures
            r@ == s@,
    {
        Self::new(s)
    }
}

impl vstd::std_specs::convert::FromSpecImpl<&str> for VariantLabel {
    open spec fn obeys_from_spec() -> bool {
        false
    }

    open spec fn from_spec(v: &str) -> Self {
        choose|l: Self| l@ == v@
    }
}

impl VariantLabel {
    /// Create a new variant label.
    pub fn new(name: &str) -> (r: Self)
        ensures
            r@ == name@,
    {
        VariantLabel(name.to_owned())
    }

    /// The label as a string slice.
    pub fn as_str(&self) -> (r: &str)
        ensures
            r@ == self@,
    {
        self.0.as_str()
    }

    /// Control variant label.
    pub fn control() -> (r: Self)
        ensures
            r@ == "control"@,
    {
        Self::new("control")
    }

    /// Treatment variant label.
    pub fn treatment() -> (r: Self)
        ensures
            r@ == "treatment"@,
    {
        Self::new("treatment")
    }

    /// The UTF-8 bytes of the label, by which labels are ordered.
    pub fn key_bytes(&self) -> (r: &[u8])
        ensures
            r@ == label_key(self@),
    {
        self.0.as_str().as_bytes()
    }

    /// The label text (what `Display` shows).
    pub fn to_display_string(&self) -> (r: String)
        ensures
            r@ == self@,
    {
        self.0.clone()
    }
}

/// The ordering key of a label: its UTF-8 bytes (labels are ordered as
/// strings are, byte by byte).
pub open spec fn label_key(l: Seq<char>) -> Seq<u8> {
    vstd::utf8::encode_utf8(l)
}

/// Labels with the same key are the same label.
pub proof fn lemma_label_key_injective(a: Seq<char>, b: Seq<char>)
    requires
        label_key(a) == label_key(b),
    ensures
        a == b,
{
    vstd::utf8::encode_utf8_decode_utf8(a);
    vstd::utf8::encode_utf8_decode_utf8(b);
}

/// A model variant for A/B testing.
#[derive(Debug)]
pub struct Variant {
    /// Variant label.
    pub label: VariantLabel,
    /// Model ID to use for this variant.
    pub model_id: String,
    /// Whether this variant is enabled.
    pub enabled: bool,
    /// Optional description.
    pub description: Option<String>,
}

impl Clone for Variant {
    fn clone(&self) -> (r: Self)
        ensures
            r.label@ == self.label@,
            r.model_id@ == self.model_id@,
            r.enabled == self.enabled,
            r.description == self.description,
    {
        Variant {
            label: self.label.clone(),
            model_id: self.model_id.clone(),
            enabled: self.enabled,
            description: match &self.description {
                Some(d) => Some(d.clone()),
                None => None,
            },
        }
    }
}

impl Variant {
    /// Create a new, enabled variant without description.
    pub fn new(label: VariantLabel, model_id: &str) -> (r: Self)
        ensures
            r.label == label,
            r.model_id@ == model_id@,
            r.enabled,
            r.description is None,
    {
        Variant { label, model_id: model_id.to_owned(), enabled: true, description: None }
    }

    /// The same variant with a description.
    pub fn with_description(self, desc: &str) -> (r: Self)
        ensures
            r.label == self.label,
            r.model_id == self.model_id,
            r.enabled == self.enabled,
            r.description is Some && r.description->0@ == desc@,
    {
        Variant { description: Some(desc.to_owned()), ..self }
    }

    /// The same variant, disabled.
    pub fn disabled(self) -> (r: Self)
        ensures
            r.label == self.label,
            r.model_id == self.model_id,
            !r.enabled,
            r.description == self.description,
    {
        Variant { enabled: false, ..self }
    }
}

} // verus!
