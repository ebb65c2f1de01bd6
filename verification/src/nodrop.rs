use vstd::prelude::*;

verus! {

/// A diagnostic tag attached to an owned GPU resource: either an
/// allocated `String` or a `&'static str`.
#[derive(Debug, Clone)]
pub enum Tag {
    /// An allocated String.
    Allocated(String),
    /// A static reference to a string.
    Static(&'static str),
}

impl View for Tag {
    type V = Seq<char>;

    open spec fn view(&self) -> Seq<char> {
        match self {
            Tag::Allocated(s) => s@,
            Tag::Static(s) => s@,
        }
    }
}

impl Tag {
    /// Read the tag's text.
    pub fn as_str(&self) -> (r: &str)
        ensures
            r@ == self@,
    {
        match self {
            Tag::Allocated(s) => s.as_str(),
            Tag::Static(s) => s,
        }
    }

    /// An owned copy of the tag, equal to the one copied.
    pub fn duplicate(&self) -> (r: Tag)
        ensures
            r == *self,
    {
        match self {
            Tag::Allocated(s) => Tag::Allocated(s.clone()),
            Tag::Static(s) => Tag::Static(s),
        }
    }
}

/// The explicit-destruction marker: a value of this type stands inside
/// every owned resource that must be destroyed by a deliberate call,
/// never by silently falling out of scope. It carries the diagnostic tag
/// that identifies the resource, and it is consumed — via [`NoDrop::destroy`]
/// — exactly when the resource's own destruction happens.
#[derive(Debug)]
pub struct NoDrop {
    tag: Tag,
}

impl NoDrop {
    /// The tag this marker carries.
    pub closed spec fn spec_tag(&self) -> Tag {
        self.tag
    }

    /// Create a new NoDrop from a Tag.
    pub fn new(tag: Tag) -> (r: NoDrop)
        ensures
            r.spec_tag() == tag,
    {
        NoDrop { tag }
    }

    /// Create a new NoDrop from an allocated String.
    pub fn from_string(tag: String) -> (r: NoDrop)
        ensures
            r.spec_tag() == Tag::Allocated(tag),
    {
        NoDrop { tag: Tag::Allocated(tag) }
    }

    /// Create a new NoDrop from a `&'static str`.
    pub fn from_str(tag: &'static str) -> (r: NoDrop)
        ensures
            r.spec_tag() == Tag::Static(tag),
    {
        NoDrop { tag: Tag::Static(tag) }
    }

    /// Read the tag, for the diagnostic that names the resource.
    pub fn tag(&self) -> (r: &Tag)
        ensures
            *r == self.spec_tag(),
    {
        &self.tag
    }

    /// Consume the marker: the one sanctioned way for it to go away,
    /// called exactly when the resource it marks is explicitly destroyed.
    /// Handing the tag back lets the destruction site log what it tore
    /// down.
    pub fn destroy(self) -> (r: Tag)
        ensures
            r == self.spec_tag(),
    {
        self.tag
    }
}

impl Default for NoDrop {
    /// An untagged marker.
    fn default() -> (r: NoDrop)
        ensures
            r.spec_tag() matches Tag::Static(s) && s@ == "anonymous"@,
    {
        NoDrop::from_str("anonymous")
    }
}

} // verus!
