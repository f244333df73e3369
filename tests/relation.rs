use serde::de::DeserializeOwned;
use serde::Serialize;
use serde_roundtrip::RoundTrip;
use std::borrow::Cow;
use std::collections::{BTreeMap, BTreeSet, HashMap, HashSet, VecDeque};
use std::marker::PhantomData;
use std::rc::Rc;
use std::sync::Arc;
use std::time::Duration;

/// Encodes `v` as JSON and decodes the text at `T`.
fn via_json<S: Serialize + ?Sized, T: DeserializeOwned>(v: &S) -> T {
    serde_json::from_str(&serde_json::to_string(v).unwrap()).unwrap()
}

#[test]
fn leaves_are_copied() {
    let b: bool = true.round_trip();
    assert!(b);
    let c: char = 'x'.round_trip();
    assert_eq!(c, 'x');
    let n: u64 = 37u64.round_trip();
    assert_eq!(n, 37);
    let i: i16 = (-5i16).round_trip();
    assert_eq!(i, -5);
    let u: () = ().round_trip();
    assert_eq!(u, via_json::<(), ()>(&()));
    let d: Duration = Duration::new(1000, 0).round_trip();
    assert_eq!(d, via_json::<Duration, Duration>(&Duration::new(1000, 0)));
}

#[test]
fn borrowed_text_becomes_owned() {
    let s: String = "hello".round_trip();
    assert_eq!(s, "hello".to_string());
    assert_eq!(s, via_json::<str, String>("hello"));
    let owned: String = String::from("world").round_trip();
    assert_eq!(owned, "world");
}

#[test]
fn one_field_tuple_of_text_matches_json() {
    let source: (&str,) = ("hello",);
    let direct: (String,) = source.round_trip();
    assert_eq!(direct, ("hello".to_string(),));
    assert_eq!(direct, via_json::<(&str,), (String,)>(&source));
}

#[test]
fn sequences_keep_order() {
    let v: Vec<&str> = vec!["hello", "world"];
    let direct: Vec<String> = v.round_trip();
    assert_eq!(direct, vec!["hello".to_string(), "world".to_string()]);
    assert_eq!(direct, via_json::<Vec<&str>, Vec<String>>(&v));
    let slice: &[&str] = &["hello", "world"][..];
    let from_slice: Vec<String> = slice.round_trip();
    assert_eq!(from_slice, direct);
    let empty: Vec<u8> = Vec::<u8>::new().round_trip();
    assert!(empty.is_empty());
}

#[test]
fn array_of_length_zero_gives_empty_array() {
    let a: [u8; 0] = [];
    let r: [u8; 0] = a.round_trip();
    assert_eq!(r.len(), 0);
    assert_eq!(r, via_json::<[u8; 0], [u8; 0]>(&a));
}

#[test]
fn array_of_length_thirty_two_matches_json() {
    let mut a: [u16; 32] = [0; 32];
    for (i, x) in a.iter_mut().enumerate() {
        *x = (i as u16) * 3;
    }
    let r: [u16; 32] = a.round_trip();
    assert_eq!(r, a);
    assert_eq!(r, via_json::<[u16; 32], [u16; 32]>(&a));
    let texts: [&str; 32] = ["t"; 32];
    let owned: [String; 32] = texts.round_trip();
    assert!(owned.iter().all(|s| s == "t"));
}

#[test]
fn array_of_length_thirty_three_is_transformed() {
    let mut a: [u32; 33] = [0; 33];
    for (i, x) in a.iter_mut().enumerate() {
        *x = i as u32;
    }
    let r: [u32; 33] = a.round_trip();
    assert_eq!(r, a);
    assert_eq!(r[32], 32);
}

#[test]
fn optional_values_map_the_content() {
    let some: Option<&str> = Some("x");
    let r: Option<String> = some.round_trip();
    assert_eq!(r, Some("x".to_string()));
    assert_eq!(r, via_json::<Option<&str>, Option<String>>(&some));
    let none: Option<&str> = None;
    let r2: Option<String> = none.round_trip();
    assert_eq!(r2, None);
    assert_eq!(r2, via_json::<Option<&str>, Option<String>>(&none));
}

#[test]
fn either_values_map_each_arm() {
    let ok: Result<u8, &str> = Ok(7);
    let r: Result<u8, String> = ok.round_trip();
    assert_eq!(r, Ok(7));
    assert_eq!(r, via_json::<Result<u8, &str>, Result<u8, String>>(&ok));
    let err: Result<u8, &str> = Err("bad");
    let r2: Result<u8, String> = err.round_trip();
    assert_eq!(r2, Err("bad".to_string()));
    assert_eq!(r2, via_json::<Result<u8, &str>, Result<u8, String>>(&err));
}

#[test]
fn nested_indirections_match_json() {
    let v: Box<Rc<u64>> = Box::new(Rc::new(37));
    let direct: Box<Rc<u64>> = v.round_trip();
    assert_eq!(**direct, 37);
    assert_eq!(direct, via_json::<Box<Rc<u64>>, Box<Rc<u64>>>(&v));
    let wrapped: Box<Rc<Arc<bool>>> = true.round_trip();
    assert!(***wrapped);
    assert_eq!(wrapped, via_json::<bool, Box<Rc<Arc<bool>>>>(&true));
    let unwrapped: Duration = Arc::new(Rc::new(Box::new(Duration::new(1000, 0)))).round_trip();
    assert_eq!(unwrapped, Duration::new(1000, 0));
}

#[test]
fn borrowed_or_owned_text_is_decoded_owned() {
    let c: Cow<'static, str> = Cow::Borrowed("x");
    let r: Cow<'static, str> = c.round_trip();
    assert_eq!(r, "x");
    assert!(matches!(r, Cow::Owned(_)));
    assert_eq!(r, via_json::<Cow<'static, str>, Cow<'static, str>>(&c));
    let s: String = c.round_trip();
    assert_eq!(s, "x");
}

#[test]
fn markers_carry_nothing() {
    let p: PhantomData<u8> = PhantomData;
    let r: PhantomData<u8> = p.round_trip();
    assert_eq!(r, p);
}

#[test]
fn sixteen_tuple_keeps_component_order() {
    let source = (0u8, "a", 2u16, "b", 4u32, "c", 6u64, "d", 8i8, "e", 10i16, "f", 12i32, "g", 14i64, "h");
    type Target = (u8, String, u16, String, u32, String, u64, String, i8, String, i16, String, i32, String, i64, String);
    let direct: Target = source.round_trip();
    assert_eq!(direct.0, 0);
    assert_eq!(direct.1, "a");
    assert_eq!(direct.7, "d");
    assert_eq!(direct.14, 14);
    assert_eq!(direct.15, "h");
    let decoded: Target = via_json::<_, Target>(&source);
    assert_eq!(serde_json::to_string(&direct).unwrap(), serde_json::to_string(&decoded).unwrap());
}

#[test]
fn nested_tuple_matches_json() {
    type Target = ((usize,), Vec<String>, Box<Rc<Arc<bool>>>, Duration, Cow<'static, str>);
    let source = (
        (37usize,),
        &["hello", "world"][..],
        true,
        Arc::new(Rc::new(Box::new(Duration::new(1000, 0)))),
        Cow::Borrowed("x"),
    );
    let direct: Target = source.round_trip();
    assert_eq!(direct, via_json::<_, Target>(&source));
}

#[test]
fn hash_maps_transform_keys_and_values() {
    let mut m: HashMap<&str, usize> = HashMap::new();
    m.insert("a", 1);
    m.insert("b", 2);
    let direct: HashMap<String, usize> = m.round_trip();
    assert_eq!(direct.len(), 2);
    assert_eq!(direct.get("a"), Some(&1));
    assert_eq!(direct.get("b"), Some(&2));
    assert_eq!(direct, via_json::<_, HashMap<String, usize>>(&m));
}

#[test]
fn ordered_maps_compare_by_contents() {
    let mut m: BTreeMap<&str, Option<&str>> = BTreeMap::new();
    m.insert("z", Some("last"));
    m.insert("a", None);
    let direct: BTreeMap<String, Option<String>> = m.round_trip();
    let mut expected: BTreeMap<String, Option<String>> = BTreeMap::new();
    expected.insert("a".to_string(), None);
    expected.insert("z".to_string(), Some("last".to_string()));
    assert_eq!(direct, expected);
    assert_eq!(direct, via_json::<_, BTreeMap<String, Option<String>>>(&m));
}

#[test]
fn sets_transform_each_item() {
    let h: HashSet<&str> = ["x", "y"].into_iter().collect();
    let hd: HashSet<String> = h.round_trip();
    assert_eq!(hd.len(), 2);
    assert!(hd.contains("x") && hd.contains("y"));
    assert_eq!(hd, via_json::<_, HashSet<String>>(&h));
    let b: BTreeSet<u8> = [3u8, 1, 2].into_iter().collect();
    let bd: BTreeSet<u8> = b.round_trip();
    assert_eq!(bd, b);
    assert_eq!(bd, via_json::<_, BTreeSet<u8>>(&b));
}

#[test]
fn double_ended_queues_keep_order() {
    let mut q: VecDeque<&str> = VecDeque::new();
    q.push_back("b");
    q.push_front("a");
    let direct: VecDeque<String> = q.round_trip();
    assert_eq!(direct, VecDeque::from(vec!["a".to_string(), "b".to_string()]));
    assert_eq!(direct, via_json::<_, VecDeque<String>>(&q));
}

#[test]
fn colliding_keys_keep_one_entry() {
    let mut m: HashMap<Box<u8>, u8> = HashMap::new();
    m.insert(Box::new(1), 10);
    let direct: HashMap<u8, u8> = m.round_trip();
    assert_eq!(direct.get(&1), Some(&10));
    let empty: HashMap<u8, u8> = HashMap::<u8, u8>::new().round_trip();
    assert!(empty.is_empty());
}

#[test]
fn references_transform_their_target() {
    let mut n: u32 = 9;
    let r: &mut u32 = &mut n;
    let direct: u32 = r.round_trip();
    assert_eq!(direct, 9);
    let s: &&str = &"deep";
    let owned: String = s.round_trip();
    assert_eq!(owned, "deep");
}

#[test]
fn borrowed_or_owned_slices_become_vectors() {
    let items: [&str; 2] = ["p", "q"];
    let c: Cow<[&str]> = Cow::Borrowed(&items[..]);
    let direct: Vec<String> = c.round_trip();
    assert_eq!(direct, vec!["p".to_string(), "q".to_string()]);
    assert_eq!(direct, via_json::<_, Vec<String>>(&c));
    let owned: Cow<[u8]> = Cow::Owned(vec![1, 2]);
    let back: Cow<'static, [u8]> = owned.round_trip();
    assert_eq!(&*back, &[1u8, 2][..]);
    assert!(matches!(back, Cow::Owned(_)));
}
