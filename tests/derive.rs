use serde_roundtrip::{
    derive_source, impl_round_trip, Field, Fields, Generics, Kind, LifetimeParam, Token, TokenKind,
    TypeParam, TypeShape, Variant,
};

fn tok(kind: TokenKind, text: &str) -> Token {
    Token { kind, text: text.to_string() }
}

/// Splits `text` at spaces into tokens: words, lifetimes, numbers and punctuation.
fn toks(text: &str) -> Vec<Token> {
    text.split_whitespace()
        .map(|w| {
            let c = w.chars().next().unwrap();
            if c == '\'' {
                tok(TokenKind::Lifetime, w)
            } else if c.is_ascii_digit() {
                tok(TokenKind::Literal, w)
            } else if c.is_alphabetic() || c == '_' {
                tok(TokenKind::Ident, w)
            } else {
                tok(TokenKind::Punct, w)
            }
        })
        .collect()
}

fn no_generics() -> Generics {
    Generics { lifetimes: vec![], type_params: vec![], where_clause: vec![] }
}

fn lifetime(name: &str) -> LifetimeParam {
    LifetimeParam { name: name.to_string(), bounds: vec![] }
}

fn param(name: &str, bounds: &[&str]) -> TypeParam {
    TypeParam { name: name.to_string(), bounds: bounds.iter().map(|b| toks(b)).collect() }
}

fn field(name: &str, ty: &str) -> Field {
    Field { name: name.to_string(), ty: toks(ty) }
}

fn unit_shape() -> TypeShape {
    TypeShape { name: "TestUnit".to_string(), kind: Kind::Struct(Fields::Unit), generics: no_generics() }
}

fn enum_shape() -> TypeShape {
    TypeShape {
        name: "TestEnum".to_string(),
        kind: Kind::Sum(vec![
            Variant { name: "TupleCase".to_string(), fields: Fields::TupleLike(vec![toks("Cow < 'a , str >")]) },
            Variant { name: "StructCase".to_string(), fields: Fields::Record(vec![field("n", "usize")]) },
            Variant { name: "UnitCase".to_string(), fields: Fields::Unit },
        ]),
        generics: Generics { lifetimes: vec![lifetime("'a")], type_params: vec![], where_clause: vec![] },
    }
}

const SAME_BODY: &str = "{ type SameAs = Self ; fn from ( data : Self ) -> Self { data } } ";

#[test]
fn unit_struct_without_parameters() {
    let expected = format!(
        "{}{}",
        "impl < T : :: serde_roundtrip :: SameDeserialization < SameAs = TestUnit > , > \
         :: serde_roundtrip :: RoundTrip < T > for TestUnit \
         { fn round_trip ( & self ) -> T { T :: from ( TestUnit ) } } \
         impl < > :: serde_roundtrip :: SameDeserialization for TestUnit ",
        SAME_BODY
    );
    assert_eq!(derive_source(&unit_shape()), expected);
}

#[test]
fn record_with_parameters_renames_them() {
    let shape = TypeShape {
        name: "Foo".to_string(),
        kind: Kind::Struct(Fields::Record(vec![field("a", "X"), field("b", "Vec < Y >")])),
        generics: Generics {
            lifetimes: vec![lifetime("'l")],
            type_params: vec![param("X", &["Clone"]), param("Y", &[])],
            where_clause: vec![toks("X : Into < Y >"), toks("Y : Iterator < Item = X >"), toks("X :: Assoc : Copy")],
        },
    };
    let expected = "impl < 'a0 : , 'b0 : , \
         S0 : Clone + :: serde_roundtrip :: RoundTrip < T0 > , \
         S1 : :: serde_roundtrip :: RoundTrip < T1 > , \
         T0 : Clone + :: serde :: de :: DeserializeOwned , \
         T1 : :: serde :: de :: DeserializeOwned , \
         T : :: serde_roundtrip :: SameDeserialization < SameAs = Foo < 'b0 , T0 , T1 , > > , > \
         :: serde_roundtrip :: RoundTrip < T > for Foo < 'a0 , S0 , S1 , > \
         where S0 : Into < S1 > , S1 : Iterator < Item = S0 > , X :: Assoc : Copy , \
         T0 : Into < T1 > , T1 : Iterator < Item = T0 > , X :: Assoc : Copy , \
         { fn round_trip ( & self ) -> T { T :: from ( \
         Foo { a : self . a . round_trip ( ) , b : self . b . round_trip ( ) , } ) } } \
         impl < 'b0 : , T0 : Clone + :: serde :: de :: DeserializeOwned , \
         T1 : :: serde :: de :: DeserializeOwned , > \
         :: serde_roundtrip :: SameDeserialization for Foo < 'b0 , T0 , T1 , > \
         where T0 : Into < T1 > , T1 : Iterator < Item = T0 > , X :: Assoc : Copy , ";
    assert_eq!(derive_source(&shape), format!("{}{}", expected, SAME_BODY));
}

#[test]
fn lifetime_bounds_are_renamed() {
    let shape = TypeShape {
        name: "Pair".to_string(),
        kind: Kind::Struct(Fields::TupleLike(vec![toks("& 'x str"), toks("& 'y str")])),
        generics: Generics {
            lifetimes: vec![lifetime("'x"), LifetimeParam { name: "'y".to_string(), bounds: vec!["'x".to_string()] }],
            type_params: vec![],
            where_clause: vec![],
        },
    };
    let out = derive_source(&shape);
    assert!(out.starts_with("impl < 'a0 : , 'a1 : 'a0 + , 'b0 : , 'b1 : 'b0 + , T : "));
    assert!(out.contains("for Pair < 'a0 , 'a1 , > {"));
    assert!(out.contains("T :: from ( Pair ( self . 0 . round_trip ( ) , self . 1 . round_trip ( ) , ) )"));
    assert!(out.contains("SameDeserialization for Pair < 'b0 , 'b1 , > {"));
}

#[test]
fn tuple_fields_follow_declared_positions() {
    let fields: Vec<Vec<Token>> = (0..16).map(|_| toks("u8")).collect();
    let shape = TypeShape { name: "Wide".to_string(), kind: Kind::Struct(Fields::TupleLike(fields)), generics: no_generics() };
    let out = derive_source(&shape);
    let mut at = 0;
    for i in 0..16 {
        let piece = format!("self . {} . round_trip ( ) , ", i);
        let found = out[at..].find(&piece).map(|p| p + at).unwrap();
        assert!(found >= at);
        at = found + piece.len();
    }
}

#[test]
fn record_fields_follow_declared_order() {
    let names = ["z", "y", "x", "w"];
    let shape = TypeShape {
        name: "R".to_string(),
        kind: Kind::Struct(Fields::Record(names.iter().map(|n| field(n, "u8")).collect())),
        generics: no_generics(),
    };
    let out = derive_source(&shape);
    assert!(out.contains(
        "R { z : self . z . round_trip ( ) , y : self . y . round_trip ( ) , \
         x : self . x . round_trip ( ) , w : self . w . round_trip ( ) , }"
    ));
}

#[test]
fn enum_arms_rebuild_each_variant() {
    let out = derive_source(&enum_shape());
    assert!(out.contains(
        "T :: from ( match * self { \
         TestEnum :: TupleCase ( ref x0 , ) => TestEnum :: TupleCase ( x0 . round_trip ( ) , ) , \
         TestEnum :: StructCase { ref n , } => TestEnum :: StructCase { n : n . round_trip ( ) , } , \
         TestEnum :: UnitCase => TestEnum :: UnitCase , } )"
    ));
    assert!(out.contains("for TestEnum < 'a0 , > {"));
}

#[test]
fn generation_is_deterministic() {
    let a = impl_round_trip(&enum_shape());
    let b = impl_round_trip(&enum_shape());
    assert_eq!(a.len(), b.len());
    for (x, y) in a.iter().zip(b.iter()) {
        assert_eq!(x.kind, y.kind);
        assert_eq!(x.text, y.text);
    }
    assert_eq!(derive_source(&enum_shape()), derive_source(&enum_shape()));
}

#[test]
fn qualified_names_are_not_renamed() {
    let shape = TypeShape {
        name: "W".to_string(),
        kind: Kind::Struct(Fields::TupleLike(vec![toks("X")])),
        generics: Generics {
            lifetimes: vec![],
            type_params: vec![param("X", &["a :: X", "X :: Y", "Into < X >", "Fn ( X ) -> X"])],
            where_clause: vec![],
        },
    };
    let out = derive_source(&shape);
    assert!(out.contains("S0 : a :: X + X :: Y + Into < S0 > + Fn ( S0 ) -> S0 + :: serde_roundtrip :: RoundTrip < T0 > ,"));
    assert!(out.contains("T0 : a :: X + X :: Y + Into < T0 > + Fn ( T0 ) -> T0 + :: serde :: de :: DeserializeOwned ,"));
}
