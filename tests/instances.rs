use serde::de::{self, Deserializer, EnumAccess, MapAccess, SeqAccess, VariantAccess, Visitor};
use serde::ser::{SerializeStruct, SerializeTupleStruct, Serializer};
use serde::{Deserialize, Serialize};
use serde_roundtrip::{
    derive_source, Field, Fields, Generics, Kind, LifetimeParam, RoundTrip, SameDeserialization, Token,
    TokenKind, TypeParam, TypeShape, Variant,
};
use std::borrow::Cow;
use std::fmt;

// Types with the instances that the generator writes for them, and serde
// instances written out by hand.

#[derive(PartialEq, Debug)]
struct TestTuple<'a, T>(Cow<'a, str>, T);

#[derive(PartialEq, Debug)]
struct TestStruct<T> {
    contents: Vec<T>,
}

#[derive(PartialEq, Debug)]
enum TestEnum<'a> {
    TupleCase(Cow<'a, str>),
    StructCase(usize),
    UnitCase,
}

#[derive(PartialEq, Debug)]
struct Msg<T> {
    text: T,
}

impl<'a0, 'b0, S0, T0, T> RoundTrip<T> for TestTuple<'a0, S0>
where
    S0: RoundTrip<T0>,
    T0: serde::de::DeserializeOwned,
    T: SameDeserialization<SameAs = TestTuple<'b0, T0>>,
{
    fn round_trip(&self) -> T {
        T::from(TestTuple(self.0.round_trip(), self.1.round_trip()))
    }
}

impl<'b0, T0: serde::de::DeserializeOwned> SameDeserialization for TestTuple<'b0, T0> {
    type SameAs = Self;
    fn from(data: Self) -> Self {
        data
    }
}

impl<S0, T0, T> RoundTrip<T> for TestStruct<S0>
where
    S0: RoundTrip<T0>,
    T0: serde::de::DeserializeOwned,
    T: SameDeserialization<SameAs = TestStruct<T0>>,
{
    fn round_trip(&self) -> T {
        T::from(TestStruct { contents: self.contents.round_trip() })
    }
}

impl<T0: serde::de::DeserializeOwned> SameDeserialization for TestStruct<T0> {
    type SameAs = Self;
    fn from(data: Self) -> Self {
        data
    }
}

impl<'a0, 'b0, T> RoundTrip<T> for TestEnum<'a0>
where
    T: SameDeserialization<SameAs = TestEnum<'b0>>,
{
    fn round_trip(&self) -> T {
        T::from(match *self {
            TestEnum::TupleCase(ref x0) => TestEnum::TupleCase(x0.round_trip()),
            TestEnum::StructCase(ref x0) => TestEnum::StructCase(x0.round_trip()),
            TestEnum::UnitCase => TestEnum::UnitCase,
        })
    }
}

impl<'b0> SameDeserialization for TestEnum<'b0> {
    type SameAs = Self;
    fn from(data: Self) -> Self {
        data
    }
}

impl<S0, T0, T> RoundTrip<T> for Msg<S0>
where
    S0: RoundTrip<T0>,
    T0: serde::de::DeserializeOwned,
    T: SameDeserialization<SameAs = Msg<T0>>,
{
    fn round_trip(&self) -> T {
        T::from(Msg { text: self.text.round_trip() })
    }
}

impl<T0: serde::de::DeserializeOwned> SameDeserialization for Msg<T0> {
    type SameAs = Self;
    fn from(data: Self) -> Self {
        data
    }
}

impl<'a, T: Serialize> Serialize for TestTuple<'a, T> {
    fn serialize<S: Serializer>(&self, s: S) -> Result<S::Ok, S::Error> {
        let mut t = s.serialize_tuple_struct("TestTuple", 2)?;
        t.serialize_field(&self.0)?;
        t.serialize_field(&self.1)?;
        t.end()
    }
}

struct TestTupleVisitor<T>(std::marker::PhantomData<T>);

impl<'de, T: Deserialize<'de>> Visitor<'de> for TestTupleVisitor<T> {
    type Value = TestTuple<'static, T>;
    fn expecting(&self, f: &mut fmt::Formatter) -> fmt::Result {
        f.write_str("a pair")
    }
    fn visit_seq<A: SeqAccess<'de>>(self, mut seq: A) -> Result<Self::Value, A::Error> {
        let a: String = seq.next_element()?.ok_or_else(|| de::Error::invalid_length(0, &self))?;
        let b: T = seq.next_element()?.ok_or_else(|| de::Error::invalid_length(1, &self))?;
        Ok(TestTuple(Cow::Owned(a), b))
    }
}

impl<'de, T: Deserialize<'de>> Deserialize<'de> for TestTuple<'static, T> {
    fn deserialize<D: Deserializer<'de>>(d: D) -> Result<Self, D::Error> {
        d.deserialize_tuple_struct("TestTuple", 2, TestTupleVisitor(std::marker::PhantomData))
    }
}

impl<T: Serialize> Serialize for TestStruct<T> {
    fn serialize<S: Serializer>(&self, s: S) -> Result<S::Ok, S::Error> {
        let mut t = s.serialize_struct("TestStruct", 1)?;
        t.serialize_field("contents", &self.contents)?;
        t.end()
    }
}

struct ContentsVisitor<T>(std::marker::PhantomData<T>);

impl<'de, T: Deserialize<'de>> Visitor<'de> for ContentsVisitor<T> {
    type Value = Vec<T>;
    fn expecting(&self, f: &mut fmt::Formatter) -> fmt::Result {
        f.write_str("a map with one field")
    }
    fn visit_map<A: MapAccess<'de>>(self, mut map: A) -> Result<Self::Value, A::Error> {
        let mut found: Option<Vec<T>> = None;
        while let Some(key) = map.next_key::<String>()? {
            if key == "contents" {
                found = Some(map.next_value()?);
            } else {
                return Err(de::Error::unknown_field(&key, &["contents"]));
            }
        }
        found.ok_or_else(|| de::Error::missing_field("contents"))
    }
}

impl<'de, T: Deserialize<'de>> Deserialize<'de> for TestStruct<T> {
    fn deserialize<D: Deserializer<'de>>(d: D) -> Result<Self, D::Error> {
        let contents = d.deserialize_struct("TestStruct", &["contents"], ContentsVisitor(std::marker::PhantomData))?;
        Ok(TestStruct { contents })
    }
}

impl<T: Serialize> Serialize for Msg<T> {
    fn serialize<S: Serializer>(&self, s: S) -> Result<S::Ok, S::Error> {
        let mut t = s.serialize_struct("Msg", 1)?;
        t.serialize_field("text", &self.text)?;
        t.end()
    }
}

struct TextVisitor<T>(std::marker::PhantomData<T>);

impl<'de, T: Deserialize<'de>> Visitor<'de> for TextVisitor<T> {
    type Value = T;
    fn expecting(&self, f: &mut fmt::Formatter) -> fmt::Result {
        f.write_str("a map with one field")
    }
    fn visit_map<A: MapAccess<'de>>(self, mut map: A) -> Result<Self::Value, A::Error> {
        let mut found: Option<T> = None;
        while let Some(key) = map.next_key::<String>()? {
            if key == "text" {
                found = Some(map.next_value()?);
            } else {
                return Err(de::Error::unknown_field(&key, &["text"]));
            }
        }
        found.ok_or_else(|| de::Error::missing_field("text"))
    }
}

impl<'de, T: Deserialize<'de>> Deserialize<'de> for Msg<T> {
    fn deserialize<D: Deserializer<'de>>(d: D) -> Result<Self, D::Error> {
        let text = d.deserialize_struct("Msg", &["text"], TextVisitor(std::marker::PhantomData))?;
        Ok(Msg { text })
    }
}

impl<'a> Serialize for TestEnum<'a> {
    fn serialize<S: Serializer>(&self, s: S) -> Result<S::Ok, S::Error> {
        match *self {
            TestEnum::TupleCase(ref x) => s.serialize_newtype_variant("TestEnum", 0, "TupleCase", x),
            TestEnum::StructCase(ref x) => s.serialize_newtype_variant("TestEnum", 1, "StructCase", x),
            TestEnum::UnitCase => s.serialize_unit_variant("TestEnum", 2, "UnitCase"),
        }
    }
}

const VARIANTS: &[&str] = &["TupleCase", "StructCase", "UnitCase"];

struct TestEnumVisitor;

impl<'de> Visitor<'de> for TestEnumVisitor {
    type Value = TestEnum<'static>;
    fn expecting(&self, f: &mut fmt::Formatter) -> fmt::Result {
        f.write_str("a variant of TestEnum")
    }
    fn visit_enum<A: EnumAccess<'de>>(self, data: A) -> Result<Self::Value, A::Error> {
        let (name, variant): (String, A::Variant) = data.variant()?;
        match name.as_str() {
            "TupleCase" => variant.newtype_variant::<String>().map(|s| TestEnum::TupleCase(Cow::Owned(s))),
            "StructCase" => variant.newtype_variant().map(TestEnum::StructCase),
            "UnitCase" => variant.unit_variant().map(|_| TestEnum::UnitCase),
            other => Err(de::Error::unknown_variant(other, VARIANTS)),
        }
    }
}

impl<'de> Deserialize<'de> for TestEnum<'static> {
    fn deserialize<D: Deserializer<'de>>(d: D) -> Result<Self, D::Error> {
        d.deserialize_enum("TestEnum", VARIANTS, TestEnumVisitor)
    }
}

fn via_json<S: Serialize, T: serde::de::DeserializeOwned>(v: &S) -> T {
    serde_json::from_str(&serde_json::to_string(v).unwrap()).unwrap()
}

#[test]
fn test_round_trip_derive() {
    type Target = TestTuple<'static, TestStruct<TestEnum<'static>>>;
    let source = TestTuple(
        Cow::Borrowed("hello"),
        TestStruct {
            contents: vec![
                TestEnum::TupleCase(Cow::Borrowed("world")),
                TestEnum::StructCase(37),
                TestEnum::UnitCase,
            ],
        },
    );

    let via_json: Target = via_json(&source);
    let via_round_trip: Target = source.round_trip();
    assert_eq!(via_json, via_round_trip);
}

#[test]
fn one_field_record_of_borrowed_text_matches_json() {
    let msg: Msg<&'static str> = Msg { text: "hello" };
    let round_tripped: Msg<String> = via_json(&msg);
    let direct: Msg<String> = msg.round_trip();
    assert_eq!(round_tripped, direct);
    assert_eq!(direct, Msg { text: "hello".to_string() });
}

#[test]
fn each_variant_keeps_its_tag_and_fields() {
    let tuple: TestEnum<'static> = TestEnum::TupleCase(Cow::Borrowed("world")).round_trip();
    assert_eq!(tuple, TestEnum::TupleCase(Cow::Owned("world".to_string())));
    assert!(matches!(tuple, TestEnum::TupleCase(Cow::Owned(_))));
    let tagged: TestEnum<'static> = TestEnum::StructCase(37).round_trip();
    assert_eq!(tagged, TestEnum::StructCase(37));
    let unit: TestEnum<'static> = TestEnum::UnitCase.round_trip();
    assert_eq!(unit, TestEnum::UnitCase);
    for v in [TestEnum::TupleCase(Cow::Borrowed("a")), TestEnum::StructCase(1), TestEnum::UnitCase] {
        let direct: TestEnum<'static> = v.round_trip();
        assert_eq!(direct, via_json::<_, TestEnum<'static>>(&v));
    }
}

fn word(text: &str) -> Token {
    Token { kind: TokenKind::Ident, text: text.to_string() }
}

#[test]
fn generated_instances_match_the_ones_written_here() {
    let shape = TypeShape {
        name: "Msg".to_string(),
        kind: Kind::Struct(Fields::Record(vec![Field { name: "text".to_string(), ty: vec![word("T")] }])),
        generics: Generics {
            lifetimes: Vec::<LifetimeParam>::new(),
            type_params: vec![TypeParam { name: "T".to_string(), bounds: vec![] }],
            where_clause: vec![],
        },
    };
    let out = derive_source(&shape);
    assert!(out.contains("S0 : :: serde_roundtrip :: RoundTrip < T0 > ,"));
    assert!(out.contains("T0 : :: serde :: de :: DeserializeOwned ,"));
    assert!(out.contains("T : :: serde_roundtrip :: SameDeserialization < SameAs = Msg < T0 , > > ,"));
    assert!(out.contains("RoundTrip < T > for Msg < S0 , > {"));
    assert!(out.contains("T :: from ( Msg { text : self . text . round_trip ( ) , } )"));
    assert!(out.contains("SameDeserialization for Msg < T0 , > { type SameAs = Self ;"));
    let tuple = TypeShape {
        name: "TestEnum".to_string(),
        kind: Kind::Sum(vec![Variant {
            name: "StructCase".to_string(),
            fields: Fields::TupleLike(vec![vec![word("usize")]]),
        }]),
        generics: Generics { lifetimes: vec![], type_params: vec![], where_clause: vec![] },
    };
    assert!(derive_source(&tuple)
        .contains("TestEnum :: StructCase ( ref x0 , ) => TestEnum :: StructCase ( x0 . round_trip ( ) , ) ,"));
}
