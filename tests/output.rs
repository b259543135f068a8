use hdrgen::features::Features;
use hdrgen::output::OutputItems;

fn tags(names: &[&str]) -> Features {
    let mut f = Features::new();
    for n in names {
        f.union_with(&Features::from_tag(n.to_string()));
    }
    f
}

fn tag_list(f: &Features) -> Vec<String> {
    (0..f.len()).map(|i| f.tag(i).to_string()).collect()
}

fn add(out: &mut OutputItems, name: &str, header: &str, feat: &[&str], decl: &str, annot: &str) -> bool {
    out.add_header_item(name.to_string(), header.to_string(), tags(feat), decl.to_string(), annot.to_string())
        .is_ok()
}

#[test]
fn feature_union_keeps_first_order() {
    let mut f = tags(&["desktop"]);
    f.union_with(&tags(&["app", "desktop", "phone"]));
    assert_eq!(tag_list(&f), vec!["desktop", "app", "phone"]);
    assert!(f.contains("app"));
    assert!(!f.contains("server"));
    assert!(f.overlaps(&tags(&["server", "phone"])));
    assert!(!f.overlaps(&tags(&["server"])));
    assert!(!f.overlaps(&Features::new()));
    assert_eq!(tag_list(&f.duplicate()), tag_list(&f));
}

#[test]
fn identical_submission_is_idempotent() {
    let mut out = OutputItems::new();
    assert!(add(&mut out, "K", "h", &["desktop"], "pub const K: u32 = 1u32;", "h.h:1:9"));
    assert!(add(&mut out, "K", "h", &["desktop"], "pub const K: u32 = 1u32;", "h.h:1:9"));
    assert_eq!(out.len(), 1);
    assert_eq!(tag_list(out.item(0).features()), vec!["desktop"]);
    assert_eq!(out.item(0).annotation_count(), 2);
}

#[test]
fn configurations_merge() {
    let mut out = OutputItems::new();
    assert!(add(&mut out, "SYSTEM_INFO", "sysinfoapi", &["desktop"], "pub struct SYSTEM_INFO;", "sysinfoapi.h:75:16"));
    assert!(add(&mut out, "MEMORYSTATUSEX", "sysinfoapi", &["desktop"], "pub struct MEMORYSTATUSEX;", "sysinfoapi.h:115:16"));
    assert!(add(&mut out, "SYSTEM_INFO", "sysinfoapi", &["app"], "pub struct SYSTEM_INFO;", "sysinfoapi.h:75:16"));
    assert_eq!(out.len(), 2);
    assert_eq!(tag_list(out.item(0).features()), vec!["desktop", "app"]);
    assert_eq!(tag_list(out.item(1).features()), vec!["desktop"]);
    assert_eq!(
        out.emit("sysinfoapi"),
        "#[cfg(any(feature=\"desktop\", feature=\"app\"))] pub struct SYSTEM_INFO; /* sysinfoapi.h:75:16, sysinfoapi.h:75:16 */\n\
         #[cfg(feature=\"desktop\")] pub struct MEMORYSTATUSEX; /* sysinfoapi.h:115:16 */\n"
    );
}

#[test]
fn divergent_declarations() {
    let mut out = OutputItems::new();
    assert!(add(&mut out, "T", "h", &["desktop"], "pub type T = u32;", "a"));
    assert!(add(&mut out, "U", "h", &["desktop"], "pub type U = u8;", "b"));
    // Disjoint tags: kept as an alternative, next to the first text.
    assert!(add(&mut out, "T", "h", &["app"], "pub type T = u64;", "c"));
    assert_eq!(out.len(), 3);
    assert_eq!(out.item(1).decl(), "pub type T = u64;");
    assert_eq!(out.item(2).name(), "U");
    // Shared tag: refused, nothing changes.
    let r = out.add_header_item("T".to_string(), "h".to_string(), tags(&["app", "phone"]), "pub type T = i8;".to_string(), "d".to_string());
    assert_eq!(r.map_err(|c| c.existing), Err(1));
    assert_eq!(out.len(), 3);
    // The first text again under the other tag would overlap the alternative.
    let r = out.add_header_item("T".to_string(), "h".to_string(), tags(&["app"]), "pub type T = u32;".to_string(), "e".to_string());
    assert!(r.is_err());
}

#[test]
fn headers_in_first_observation_order() {
    let mut out = OutputItems::new();
    assert!(add(&mut out, "A", "winnt", &[], "a;", "x"));
    assert!(add(&mut out, "B", "basetsd", &[], "b;", "y"));
    assert!(add(&mut out, "C", "winnt", &[], "c;", "z"));
    assert_eq!(out.headers(), vec!["winnt".to_string(), "basetsd".to_string()]);
    assert_eq!(out.emit("winnt"), "a; /* x */\nc; /* z */\n");
    assert_eq!(out.emit("basetsd"), "b; /* y */\n");
    assert_eq!(out.emit("none"), "");
    assert_eq!(out.item(1).header(), "basetsd");
}

#[test]
fn same_name_in_other_header_is_separate() {
    let mut out = OutputItems::new();
    assert!(add(&mut out, "X", "a", &["t"], "x1;", "p"));
    assert!(add(&mut out, "X", "b", &["t"], "x2;", "q"));
    assert_eq!(out.len(), 2);
}
