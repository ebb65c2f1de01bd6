use hot::nodrop::NoDrop;
use hot::nodrop::Tag;

#[test]
fn tag_as_str_reads_either_variant() {
    let allocated = Tag::Allocated(String::from("frame staging"));
    assert_eq!(allocated.as_str(), "frame staging");
    let fixed = Tag::Static("uniform block");
    assert_eq!(fixed.as_str(), "uniform block");
}

#[test]
fn nodrop_new_carries_the_tag_through_destroy() {
    let marker = NoDrop::new(Tag::Static("depth target"));
    assert_eq!(marker.tag().as_str(), "depth target");
    let tag = marker.destroy();
    assert_eq!(tag.as_str(), "depth target");
}

#[test]
fn nodrop_from_string_allocates() {
    let marker = NoDrop::from_string(String::from("mesh upload"));
    let tag = marker.destroy();
    assert!(matches!(tag, Tag::Allocated(ref s) if s == "mesh upload"));
}

#[test]
fn nodrop_from_str_is_static() {
    let marker = NoDrop::from_str("scratch");
    let tag = marker.destroy();
    assert!(matches!(tag, Tag::Static("scratch")));
}

#[test]
fn nodrop_default_is_anonymous() {
    let marker = NoDrop::default();
    assert_eq!(marker.tag().as_str(), "anonymous");
    marker.destroy();
}
