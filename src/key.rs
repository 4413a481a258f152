//! Query keys: validity, names, and the lookup of a key by its name.
use vstd::prelude::*;

verus! {

/// A value that may or may not be a legal query key.
pub trait IsValid {
    /// Whether the value is a legal key.
    spec fn spec_is_valid(&self) -> bool;

    fn is_valid(&self) -> (r: bool)
        ensures
            r == self.spec_is_valid(),
    ;
}

/// A value that is sent as the name of a query parameter.
pub trait QueryName {
    /// The text sent on the wire.
    spec fn spec_name(&self) -> Seq<char>;

    fn name(&self) -> (r: String)
        ensures
            r@ == self.spec_name(),
    ;
}

/// The closed set of query keys of one endpoint, with a single sentinel that
/// stands for every unrecognized name.
pub trait ParamKey: IsValid + QueryName + Sized {
    /// Every legal key, in declaration order.
    spec fn spec_keys() -> Seq<Self>;

    /// The sentinel for an unrecognized name.
    spec fn spec_invalid() -> Self;

    fn keys() -> (r: Vec<Self>)
        ensures
            r@ == Self::spec_keys(),
    ;

    fn invalid() -> (r: Self)
        ensures
            r == Self::spec_invalid(),
    ;

    /// The sentinel is the one illegal value, the legal ones are listed by
    /// `spec_keys`, and no two legal keys share a name.
    proof fn lemma_key_set()
        ensures
            !Self::spec_invalid().spec_is_valid(),
            forall|k: Self| !k.spec_is_valid() ==> k == Self::spec_invalid(),
            forall|k: Self| #[trigger] k.spec_is_valid() <==> Self::spec_keys().contains(k),
            forall|a: Self, b: Self|
                a.spec_is_valid() && b.spec_is_valid() && #[trigger] a.spec_name()
                    == #[trigger] b.spec_name() ==> a == b,
    ;
}

/// The key of `P` whose name is `s`, or `P`'s sentinel when no legal key has
/// that name.
pub open spec fn key_named<P: ParamKey>(s: Seq<char>) -> P {
    if exists|k: P| k.spec_is_valid() && k.spec_name() == s {
        choose|k: P| k.spec_is_valid() && k.spec_name() == s
    } else {
        P::spec_invalid()
    }
}

/// A legal key is found again from its own name.
pub proof fn lemma_key_named_name<P: ParamKey>(k: P)
    requires
        k.spec_is_valid(),
    ensures
        key_named::<P>(k.spec_name()) == k,
{
    P::lemma_key_set();
    let c = key_named::<P>(k.spec_name());
    assert(c.spec_is_valid() && c.spec_name() == k.spec_name());
}

/// Looks a key up by its name; an unrecognized name gives the sentinel.
pub fn parse_key<P: ParamKey>(s: &str) -> (r: P)
    ensures
        r == key_named::<P>(s@),
{
    let text = s.to_owned();
    let mut keys = P::keys();
    let mut i: usize = 0;
    while i < keys.len()
        invariant
            keys@ == P::spec_keys(),
            text@ == s@,
            forall|j: int| 0 <= j < i ==> (#[trigger] keys@[j]).spec_name() != s@,
        decreases keys.len() - i,
    {
        let name = keys[i].name();
        if name == text {
            let ghost found = keys@[i as int];
            let k = keys.swap_remove(i);
            proof {
                P::lemma_key_set();
                assert(P::spec_keys()[i as int] == k);
                lemma_key_named_name::<P>(k);
            }
            return k;
        }
        i = i + 1;
    }
    proof {
        P::lemma_key_set();
        assert forall|k: P| k.spec_is_valid() implies k.spec_name() != s@ by {
            assert(P::spec_keys().contains(k));
            let j = choose|j: int| 0 <= j < keys@.len() && keys@[j] == k;
            assert(keys@[j].spec_name() != s@);
        }
    }
    P::invalid()
}

/// Something that names a key of `P`: the key itself, or its name as text.
pub trait KeyLike<P: ParamKey> {
    /// The key that this value names.
    spec fn spec_key(&self) -> P;

    fn into_key(self) -> (r: P)
        ensures
            r == self.spec_key(),
    ;
}

impl<P: ParamKey> KeyLike<P> for P {
    open spec fn spec_key(&self) -> P {
        *self
    }

    fn into_key(self) -> (r: P) {
        self
    }
}

impl<'a, P: ParamKey> KeyLike<P> for &'a str {
    open spec fn spec_key(&self) -> P {
        key_named::<P>((*self)@)
    }

    fn into_key(self) -> (r: P) {
        parse_key::<P>(self)
    }
}

impl<P: ParamKey> KeyLike<P> for String {
    open spec fn spec_key(&self) -> P {
        key_named::<P>(self@)
    }

    fn into_key(self) -> (r: P) {
        parse_key::<P>(self.as_str())
    }
}

/// Something that becomes owned text.
pub trait IntoText {
    /// The text it becomes.
    spec fn spec_text(&self) -> Seq<char>;

    fn into_text(self) -> (r: String)
        ensures
            r@ == self.spec_text(),
    ;
}

impl<'a> IntoText for &'a str {
    open spec fn spec_text(&self) -> Seq<char> {
        (*self)@
    }

    fn into_text(self) -> (r: String) {
        self.to_owned()
    }
}

impl IntoText for String {
    open spec fn spec_text(&self) -> Seq<char> {
        self@
    }

    fn into_text(self) -> (r: String) {
        self
    }
}

impl QueryName for String {
    open spec fn spec_name(&self) -> Seq<char> {
        self@
    }

    fn name(&self) -> (r: String) {
        self.clone()
    }
}

} // verus!
