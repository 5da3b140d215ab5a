//! The decoder of signature algorithms.

use crate::error::{CedarlingBridgeError, CedarlingBridgeErrorView, is_result, is_result_of};
use crate::jni::env::{JObject, JavaEnv, JavaEnvView};
use crate::jni::jni_cache::{JniCache, JniCacheView};
use crate::jni::util::{call_jni_method_to_string, string_form};
use crate::outside::{algorithm_of_name, parse_algorithm};
use vstd::prelude::*;

verus! {

pub const JAVA_CLS_NAME: &'static str = "io/jans/cedarling/bridge/config/JwtAlgorithm";


/// The place of an algorithm in the list of the known ones.
pub open spec fn code_of(algorithm: jsonwebtoken::Algorithm) -> u8 {
    match algorithm {
        jsonwebtoken::Algorithm::HS256 => 0,
        jsonwebtoken::Algorithm::HS384 => 1,
        jsonwebtoken::Algorithm::HS512 => 2,
        jsonwebtoken::Algorithm::ES256 => 3,
        jsonwebtoken::Algorithm::ES384 => 4,
        jsonwebtoken::Algorithm::RS256 => 5,
        jsonwebtoken::Algorithm::RS384 => 6,
        jsonwebtoken::Algorithm::RS512 => 7,
        jsonwebtoken::Algorithm::PS256 => 8,
        jsonwebtoken::Algorithm::PS384 => 9,
        jsonwebtoken::Algorithm::PS512 => 10,
        jsonwebtoken::Algorithm::EdDSA => 11,
    }
}

/// Gives the place of an algorithm in the list of the known ones.
pub fn algorithm_code(algorithm: &jsonwebtoken::Algorithm) -> (code: u8)
    ensures
        code == code_of(*algorithm),
{
    match algorithm {
        jsonwebtoken::Algorithm::HS256 => 0,
        jsonwebtoken::Algorithm::HS384 => 1,
        jsonwebtoken::Algorithm::HS512 => 2,
        jsonwebtoken::Algorithm::ES256 => 3,
        jsonwebtoken::Algorithm::ES384 => 4,
        jsonwebtoken::Algorithm::RS256 => 5,
        jsonwebtoken::Algorithm::RS384 => 6,
        jsonwebtoken::Algorithm::RS512 => 7,
        jsonwebtoken::Algorithm::PS256 => 8,
        jsonwebtoken::Algorithm::PS384 => 9,
        jsonwebtoken::Algorithm::PS512 => 10,
        jsonwebtoken::Algorithm::EdDSA => 11,
    }
}

/// Tells whether two algorithms are the same.
pub fn same_algorithm(a: &jsonwebtoken::Algorithm, b: &jsonwebtoken::Algorithm) -> (same: bool)
    ensures
        same == (*a == *b),
{
    algorithm_code(a) == algorithm_code(b)
}

/// A list of algorithms as a set: each algorithm once, where it stands first.
pub open spec fn distinct(named: Seq<jsonwebtoken::Algorithm>) -> Seq<jsonwebtoken::Algorithm>
    decreases named.len(),
{
    if named.len() == 0 {
        Seq::empty()
    } else if distinct(named.drop_last()).contains(named.last()) {
        distinct(named.drop_last())
    } else {
        distinct(named.drop_last()).push(named.last())
    }
}

/// The set of a list of algorithms holds nothing twice, and holds exactly
/// the algorithms of the list.
pub proof fn lemma_distinct_is_a_set(named: Seq<jsonwebtoken::Algorithm>)
    ensures
        distinct(named).no_duplicates(),
        forall|a: jsonwebtoken::Algorithm| distinct(named).contains(a) <==> named.contains(a),
    decreases named.len(),
{
    if named.len() > 0 {
        let front = named.drop_last();
        lemma_distinct_is_a_set(front);
        assert forall|a: jsonwebtoken::Algorithm| distinct(named).contains(a) <==> named.contains(
            a,
        ) by {
            if named.contains(a) {
                let i = choose|i: int| 0 <= i < named.len() && named[i] == a;
                if i < named.len() - 1 {
                    assert(front[i] == a);
                    assert(front.contains(a));
                }
                if distinct(front).contains(named.last()) {
                } else {
                    if a == named.last() {
                        assert(distinct(front).push(named.last())[distinct(front).len() as int]
                            == a);
                    } else {
                        let j = choose|j: int| 0 <= j < distinct(front).len() && distinct(front)[j]
                            == a;
                        assert(distinct(front).push(named.last())[j] == a);
                    }
                }
            }
            if distinct(named).contains(a) {
                let j = choose|j: int| 0 <= j < distinct(named).len() && distinct(named)[j] == a;
                if distinct(front).contains(named.last()) {
                    assert(distinct(front).contains(a));
                } else if j < distinct(front).len() {
                    assert(distinct(front)[j] == a);
                    assert(distinct(front).contains(a));
                } else {
                    assert(a == named.last());
                }
                if front.contains(a) {
                    let i = choose|i: int| 0 <= i < front.len() && front[i] == a;
                    assert(named[i] == a);
                } else {
                    assert(named[named.len() - 1] == a);
                }
            }
        }
    }
}

/// Whether an algorithm stands in a list.
fn holds_algorithm(
    list: &Vec<jsonwebtoken::Algorithm>,
    algorithm: &jsonwebtoken::Algorithm,
) -> (found:
    bool)
    ensures
        found == list@.contains(*algorithm),
{
    let mut i: usize = 0;
    while i < list.len()
        invariant
            i <= list.len(),
            forall|j: int| 0 <= j < i ==> list@[j] != *algorithm,
        decreases list.len() - i,
    {
        if same_algorithm(&list[i], algorithm) {
            return true;
        }
        i += 1;
    }
    false
}

/// Keeps each algorithm of a list once, where it stands first.
pub fn keep_distinct(named: &Vec<jsonwebtoken::Algorithm>) -> (set: Vec<jsonwebtoken::Algorithm>)
    ensures
        set@ == distinct(named@),
{
    let mut set: Vec<jsonwebtoken::Algorithm> = Vec::new();
    let mut i: usize = 0;
    assert(named@.take(0) =~= Seq::empty());
    while i < named.len()
        invariant
            i <= named.len(),
            set@ == distinct(named@.take(i as int)),
        decreases named.len() - i,
    {
        assert(named@.take(i + 1).drop_last() =~= named@.take(i as int));
        if !holds_algorithm(&set, &named[i]) {
            set.push(named[i]);
        }
        i += 1;
    }
    assert(named@.take(named.len() as int) =~= named@);
    set
}

/// A foreign enum value, held by its name.
#[derive(Debug)]
pub struct JavaJwtAlgorithm {
    pub name: String,
}

impl DeepView for JavaJwtAlgorithm {
    type V = Seq<char>;

    open spec fn deep_view(&self) -> Seq<char> {
        self.name@
    }
}

impl JavaJwtAlgorithm {
    /// The name of a foreign enum value: nothing for the null reference,
    /// else the string form of the object.
    pub open spec fn name_of_object(env: JavaEnvView, cache: JniCacheView, jobj: JObject) -> Result<
        Option<Seq<char>>,
        CedarlingBridgeErrorView,
    > {
        if jobj.is_null() {
            Ok(None)
        } else {
            string_form(env, cache, jobj)
        }
    }

    /// Reads the name of a foreign enum value.
    pub fn from_jni_object(env: &JavaEnv, cache: &JniCache, jobj: JObject) -> (res: Result<
        Option<JavaJwtAlgorithm>,
        CedarlingBridgeError,
    >)
        ensures
            is_result_of(res, Self::name_of_object(env@, cache@, jobj)),
    {
        if jobj.is_null() {
            return Ok(None);
        }
        match call_jni_method_to_string(env, cache, &jobj)? {
            Some(name) => Ok(Some(JavaJwtAlgorithm { name })),
            None => Ok(None),
        }
    }

    /// What decoding a name gives: its algorithm, or the error that names
    /// the enum and the unknown value.
    pub open spec fn decoded(name: Seq<char>) -> Result<
        jsonwebtoken::Algorithm,
        CedarlingBridgeErrorView,
    > {
        Self::from_parsed_spec(name, algorithm_of_name(name))
    }

    /// What the outcome of matching a name against the known algorithms
    /// stands for.
    pub open spec fn from_parsed_spec(
        name: Seq<char>,
        parsed: Option<jsonwebtoken::Algorithm>,
    ) -> Result<jsonwebtoken::Algorithm, CedarlingBridgeErrorView> {
        match parsed {
            Some(algorithm) => Ok(algorithm),
            None => Err(
                CedarlingBridgeErrorView::UnknownEnumValue { enum_cls: JAVA_CLS_NAME@, value: name },
            ),
        }
    }

    /// Turns the outcome of matching the name against the known algorithms
    /// into the result of the decoding.
    pub fn from_parsed(&self, parsed: Option<jsonwebtoken::Algorithm>) -> (res: Result<
        jsonwebtoken::Algorithm,
        CedarlingBridgeError,
    >)
        ensures
            is_result(res, Self::from_parsed_spec(self.name@, parsed)),
    {
        match parsed {
            Some(algorithm) => Ok(algorithm),
            None => Err(
                CedarlingBridgeError::UnknownEnumValue {
                    enum_cls: JAVA_CLS_NAME,
                    value: self.name.clone(),
                },
            ),
        }
    }

    /// Decodes the name.
    pub fn as_enum(&self) -> (res: Result<jsonwebtoken::Algorithm, CedarlingBridgeError>)
        ensures
            is_result(res, Self::decoded(self.name@)),
    {
        self.from_parsed(parse_algorithm(self.name.as_str()))
    }

    /// The name that stands for an algorithm.
    pub open spec fn name_of(algorithm: jsonwebtoken::Algorithm) -> Seq<char> {
        match algorithm {
            jsonwebtoken::Algorithm::HS256 => "HS256"@,
            jsonwebtoken::Algorithm::HS384 => "HS384"@,
            jsonwebtoken::Algorithm::HS512 => "HS512"@,
            jsonwebtoken::Algorithm::ES256 => "ES256"@,
            jsonwebtoken::Algorithm::ES384 => "ES384"@,
            jsonwebtoken::Algorithm::RS256 => "RS256"@,
            jsonwebtoken::Algorithm::RS384 => "RS384"@,
            jsonwebtoken::Algorithm::RS512 => "RS512"@,
            jsonwebtoken::Algorithm::PS256 => "PS256"@,
            jsonwebtoken::Algorithm::PS384 => "PS384"@,
            jsonwebtoken::Algorithm::PS512 => "PS512"@,
            jsonwebtoken::Algorithm::EdDSA => "EdDSA"@,
        }
    }

    /// Each algorithm is decoded from its own name and from no other: a
    /// recognised name, decoded and written again, is the name that came in.
    pub proof fn lemma_round_trip(algorithm: jsonwebtoken::Algorithm, name: Seq<char>)
        ensures
            algorithm_of_name(Self::name_of(algorithm)) == Some(algorithm),
            algorithm_of_name(name) == Some(algorithm) ==> Self::name_of(algorithm) == name,
    {
        reveal_strlit("HS256");
        reveal_strlit("HS384");
        reveal_strlit("HS512");
        reveal_strlit("ES256");
        reveal_strlit("ES384");
        reveal_strlit("RS256");
        reveal_strlit("RS384");
        reveal_strlit("RS512");
        reveal_strlit("PS256");
        reveal_strlit("PS384");
        reveal_strlit("PS512");
        reveal_strlit("EdDSA");
        assert("HS256"@[0] == 'H');
        assert("HS256"@[1] == 'S');
        assert("HS256"@[2] == '2');
        assert("HS384"@[0] == 'H');
        assert("HS384"@[1] == 'S');
        assert("HS384"@[2] == '3');
        assert("HS512"@[0] == 'H');
        assert("HS512"@[1] == 'S');
        assert("HS512"@[2] == '5');
        assert("ES256"@[0] == 'E');
        assert("ES256"@[1] == 'S');
        assert("ES256"@[2] == '2');
        assert("ES384"@[0] == 'E');
        assert("ES384"@[1] == 'S');
        assert("ES384"@[2] == '3');
        assert("RS256"@[0] == 'R');
        assert("RS256"@[1] == 'S');
        assert("RS256"@[2] == '2');
        assert("RS384"@[0] == 'R');
        assert("RS384"@[1] == 'S');
        assert("RS384"@[2] == '3');
        assert("RS512"@[0] == 'R');
        assert("RS512"@[1] == 'S');
        assert("RS512"@[2] == '5');
        assert("PS256"@[0] == 'P');
        assert("PS256"@[1] == 'S');
        assert("PS256"@[2] == '2');
        assert("PS384"@[0] == 'P');
        assert("PS384"@[1] == 'S');
        assert("PS384"@[2] == '3');
        assert("PS512"@[0] == 'P');
        assert("PS512"@[1] == 'S');
        assert("PS512"@[2] == '5');
        assert("EdDSA"@[0] == 'E');
        assert("EdDSA"@[1] == 'd');
        assert("EdDSA"@[2] == 'D');
    }
}

} // verus!
