//! The models that are offered, and the names that stand for others.

use grok_build_proxy::catalog::{normalize_id, Catalog};
use grok_build_proxy::modelmap::ModelMap;

#[test]
fn catalog_defaults_and_fast_normalization() {
    let c = Catalog::default();
    assert_eq!(c.ids()[0], "gpt-5.6-sol");
    assert_eq!(normalize_id(" gpt-5.6-sol-fast "), ("gpt-5.6-sol".into(), true));
    assert!(c.lookup("new-model").0.display_name == "new-model");
}

#[test]
fn chains_and_fast() {
    let m = ModelMap::parse("alias=middle,middle=gpt-5.6-sol-fast").unwrap();
    let r = m.resolve("alias");
    assert_eq!(r.model, "gpt-5.6-sol");
    assert!(r.fast && r.mapped);
}

#[test]
fn rejects_cycles() {
    assert!(ModelMap::parse("a=b,b=a").is_err());
}

#[test]
fn stable_texts_read_back() {
    let m = ModelMap::parse("z=gpt-5.6-sol-fast; b = z\nalias=middle,,middle=gpt-5.2").unwrap();
    let text = m.stable_string();
    assert_eq!(text, "alias=middle,b=z,middle=gpt-5.2,z=gpt-5.6-sol-fast");
    let again = ModelMap::parse(&text).unwrap();
    assert_eq!(again.stable_string(), text);
    for name in ["z", "b", "alias", "middle", "b-fast", "other", " z ", ""] {
        assert_eq!(again.resolve(name), m.resolve(name));
    }
    assert_eq!(ModelMap::parse("").unwrap().stable_string(), "");
    assert!(ModelMap::parse("").unwrap().is_empty());
}

#[test]
fn resolutions_are_final_and_follow_their_chain() {
    let m = ModelMap::parse("alias=middle-fast,middle=gpt-5.6-sol,b=gpt-5.2").unwrap();
    for (name, model, fast, mapped, chain) in [
        ("alias", "gpt-5.6-sol", true, true, vec!["alias", "middle-fast", "gpt-5.6-sol"]),
        (" b ", "gpt-5.2", false, true, vec!["b", "gpt-5.2"]),
        ("b-fast", "gpt-5.2", true, true, vec!["b-fast", "gpt-5.2"]),
        ("other-fast", "other", true, false, vec!["other-fast"]),
        ("-fast", "-fast", false, false, vec!["-fast"]),
    ] {
        let r = m.resolve(name);
        assert_eq!((r.model.as_str(), r.fast, r.mapped), (model, fast, mapped), "{name}");
        assert_eq!(r.chain, chain);
        assert_eq!(r.model, normalize_id(r.chain.last().unwrap()).0);
        assert_eq!(r.fast, r.chain.iter().any(|id| normalize_id(id).1));
        let q = m.resolve(&r.model);
        assert_eq!((q.model.as_str(), q.fast, q.mapped), (model, false, false));
    }
}
