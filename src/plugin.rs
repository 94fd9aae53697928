use vstd::prelude::*;
use vstd::string::StringSliceAdditionalSpecFns;

use crate::marshal::{marshaled, publish_broadcast, publish_to_client, refused, PublishCall};
use crate::message::{MosquittoMessage, QOS};
use crate::status::{ErrorKind, Success};

verus! {

/// Why a plugin hook refuses an operation.
#[derive(PartialEq, Eq, Structural, Clone, Copy, Debug)]
pub enum PluginError {
    /// The credentials were refused.
    Auth,
    /// The client may not access the topic.
    AclDenied,
    /// A call the hook makes into the host failed or could not be marshaled.
    Call(ErrorKind),
}

/// The kind of access an ACL check asks about.
#[derive(PartialEq, Eq, Structural, Clone, Copy, Debug)]
pub enum AclCheckAccessLevel {
    Read,
    Write,
    Subscribe,
    Unsubscribe,
}

impl AclCheckAccessLevel {
    /// The access level for the host's bit value, if it names one.
    pub fn from_i32(level: i32) -> (r: Option<AclCheckAccessLevel>)
        ensures
            r is Some <==> (level == 1 || level == 2 || level == 4 || level == 8),
            level == 1 ==> r == Some(AclCheckAccessLevel::Read),
            level == 2 ==> r == Some(AclCheckAccessLevel::Write),
            level == 4 ==> r == Some(AclCheckAccessLevel::Subscribe),
            level == 8 ==> r == Some(AclCheckAccessLevel::Unsubscribe),
    {
        if level == 1 {
            Some(AclCheckAccessLevel::Read)
        } else if level == 2 {
            Some(AclCheckAccessLevel::Write)
        } else if level == 4 {
            Some(AclCheckAccessLevel::Subscribe)
        } else if level == 8 {
            Some(AclCheckAccessLevel::Unsubscribe)
        } else {
            None
        }
    }
}

/// The value of a non-empty run of ASCII decimal digits.
pub open spec fn digits_value(s: Seq<char>) -> int
    decreases s.len(),
{
    if s.len() == 0 {
        0
    } else {
        digits_value(s.drop_last()) * 10 + (s.last() as int - '0' as int)
    }
}

/// True for a non-empty run of ASCII decimal digits.
pub open spec fn all_digits(s: Seq<char>) -> bool {
    s.len() > 0 && forall|i: int| 0 <= i < s.len() ==> '0' <= #[trigger] s[i] <= '9'
}

/// The integer an optional `+` or `-` sign followed by decimal digits denotes.
pub open spec fn decimal_of(s: Seq<char>) -> Option<int> {
    if s.len() > 0 && (s[0] == '+' || s[0] == '-') {
        if all_digits(s.drop_first()) {
            Some(
                if s[0] == '-' {
                    -digits_value(s.drop_first())
                } else {
                    digits_value(s.drop_first())
                },
            )
        } else {
            None
        }
    } else if all_digits(s) {
        Some(digits_value(s))
    } else {
        None
    }
}

/// Relies on i32's FromStr: an optional sign followed by only digits, whose
/// value fits an i32, parses to that value; anything else is an error.
#[verifier::external_body]
fn parse_i32(s: &str) -> (r: Option<i32>)
    ensures
        r == (match decimal_of(s@) {
            Some(v) => if i32::MIN <= v <= i32::MAX {
                Some(v as i32)
            } else {
                None
            },
            None => None,
        }),
{
    s.parse::<i32>().ok()
}

/// An example plugin: it admits a client whose password is its user name
/// reversed, and allows access to one configured topic only.
pub struct Test {
    /// The configured level.
    pub i: i32,
    /// The one topic clients may access.
    pub s: String,
}

/// What a credential check decided, with the announcements to publish, in
/// order, before its result is reported.
pub struct CredentialCheck {
    pub publishes: Vec<PublishCall>,
    pub result: Result<Success, PluginError>,
}

/// True when the password is the user name written backwards.
pub open spec fn reversed_password(u: Seq<char>, p: Seq<char>) -> bool {
    p.reverse() == u
}

fn chars_of(s: &str) -> (r: Vec<char>)
    ensures
        r@ == s@,
{
    let mut out: Vec<char> = Vec::new();
    for c in it: s.chars()
        invariant
            it.seq() == s@,
            out@ == it.seq().take(it.index() as int),
    {
        out.push(c);
        assert(out@ =~= it.seq().take(it.index() + 1));
    }
    assert(out@ =~= s@);
    out
}

/// Whether `p` is `u` written backwards.
pub fn is_reversed(u: &str, p: &str) -> (r: bool)
    ensures
        r == reversed_password(u@, p@),
{
    let uc = chars_of(u);
    let pc = chars_of(p);
    if uc.len() != pc.len() {
        assert(p@.reverse().len() != u@.len());
        return false;
    }
    let n = pc.len();
    let mut i: usize = 0;
    while i < n
        invariant
            uc@ == u@,
            pc@ == p@,
            n == pc@.len(),
            n == uc@.len(),
            i <= n,
            forall|j: int| 0 <= j < i ==> uc@[j] == pc@[n - 1 - j],
        decreases n - i,
    {
        if uc[i] != pc[n - 1 - i] {
            assert(p@.reverse()[i as int] != u@[i as int]);
            return false;
        }
        i = i + 1;
    }
    assert(p@.reverse() =~= u@);
    true
}

/// Joins two byte sequences.
pub fn concat_bytes(a: &[u8], b: &[u8]) -> (r: Vec<u8>)
    ensures
        r@ == a@ + b@,
{
    let mut out: Vec<u8> = Vec::new();
    let mut i: usize = 0;
    while i < a.len()
        invariant
            i <= a@.len(),
            out@ == a@.subrange(0, i as int),
        decreases a@.len() - i,
    {
        out.push(a[i]);
        i = i + 1;
    }
    let mut j: usize = 0;
    while j < b.len()
        invariant
            j <= b@.len(),
            out@ == a@ + b@.subrange(0, j as int),
        decreases b@.len() - j,
    {
        out.push(b[j]);
        j = j + 1;
    }
    assert(out@ =~= a@ + b@);
    out
}

/// The configured level an option value denotes: its decimal value, or 0
/// when it is not a decimal that fits an i32.
pub open spec fn level_of(s: Seq<char>) -> i32 {
    match decimal_of(s) {
        Some(v) => if i32::MIN <= v <= i32::MAX {
            v as i32
        } else {
            0
        },
        None => 0,
    }
}

/// The greeting a new friend receives privately.
pub open spec fn welcome_payload(client_id: Seq<u8>) -> Seq<u8> {
    "Welcome ".spec_bytes() + client_id
}

/// The announcement that a client was refused.
pub open spec fn snitch_payload(client_id: Seq<u8>) -> Seq<u8> {
    client_id + " is a bad bad client. No cookies for it.".spec_bytes()
}

/// The outcome for a client whose password is its user name reversed: two
/// announcements, one to everybody and one to the client, then success.
pub open spec fn friend_outcome(r: CredentialCheck, client_id: Seq<u8>) -> bool {
    let friend = "very_client is a friend. Lets make it feel at home!".spec_bytes();
    if refused(None, "new_client".spec_bytes(), friend) || refused(
        Some(client_id),
        "greeting".spec_bytes(),
        welcome_payload(client_id),
    ) {
        r.publishes@.len() == 0 && r.result == Err::<Success, PluginError>(
            PluginError::Call(ErrorKind::InvalidArgument),
        )
    } else {
        &&& r.publishes@.len() == 2
        &&& marshaled(
            r.publishes@[0],
            None,
            "new_client".spec_bytes(),
            friend,
            QOS::AtMostOnce,
            false,
        )
        &&& marshaled(
            r.publishes@[1],
            Some(client_id),
            "greeting".spec_bytes(),
            welcome_payload(client_id),
            QOS::AtMostOnce,
            false,
        )
        &&& r.result == Ok::<Success, PluginError>(Success)
    }
}

/// The outcome for a client with the wrong password: one announcement to
/// everybody, then refusal.
pub open spec fn stranger_outcome(r: CredentialCheck, client_id: Seq<u8>) -> bool {
    if refused(None, "snitcheroo".spec_bytes(), snitch_payload(client_id)) {
        r.publishes@.len() == 0 && r.result == Err::<Success, PluginError>(
            PluginError::Call(ErrorKind::InvalidArgument),
        )
    } else {
        &&& r.publishes@.len() == 1
        &&& marshaled(
            r.publishes@[0],
            None,
            "snitcheroo".spec_bytes(),
            snitch_payload(client_id),
            QOS::AtMostOnce,
            false,
        )
        &&& r.result == Err::<Success, PluginError>(PluginError::Auth)
    }
}

impl Test {
    /// Builds the plugin from its options: the allowed topic (default
    /// `hej`) and the level (0 when missing or not a decimal integer).
    pub fn init(topic: Option<&str>, level: Option<&str>) -> (r: Test)
        ensures
            r.s@ == (match topic {
                Some(t) => t@,
                None => "hej"@,
            }),
            r.i == (match level {
                Some(l) => level_of(l@),
                None => 0,
            }),
    {
        let s = match topic {
            Some(t) => t.to_owned(),
            None => "hej".to_owned(),
        };
        let i = match level {
            Some(l) => match parse_i32(l) {
                Some(v) => v,
                None => 0,
            },
            None => 0,
        };
        Test { i, s }
    }

    /// Checks a client's credentials: both must be present, and the
    /// password must be the user name reversed. Either way the other
    /// clients are told about it; the announcements are returned marshaled,
    /// to be published in order before the result is reported.
    pub fn username_password(&self, client_id: &str, u: Option<&str>, p: Option<&str>) -> (r:
        CredentialCheck)
        ensures
            (u is None || p is None) ==> r.publishes@.len() == 0 && r.result == Err::<
                Success,
                PluginError,
            >(PluginError::Auth),
            u matches Some(us) && p matches Some(ps) && reversed_password(us@, ps@)
                ==> friend_outcome(r, client_id.spec_bytes()),
            u matches Some(us) && p matches Some(ps) && !reversed_password(us@, ps@)
                ==> stranger_outcome(r, client_id.spec_bytes()),
    {
        let (us, ps) = match (u, p) {
            (Some(us), Some(ps)) => (us, ps),
            _ => {
                return CredentialCheck { publishes: Vec::new(), result: Err(PluginError::Auth) };
            },
        };
        let mut publishes: Vec<PublishCall> = Vec::new();
        if is_reversed(us, ps) {
            let friend = "very_client is a friend. Lets make it feel at home!";
            let first = match publish_broadcast(
                "new_client",
                friend.as_bytes(),
                QOS::AtMostOnce,
                false,
            ) {
                Err(e) => {
                    return CredentialCheck { publishes, result: Err(PluginError::Call(e)) };
                },
                Ok(c) => c,
            };
            let welcome = concat_bytes("Welcome ".as_bytes(), client_id.as_bytes());
            let second = match publish_to_client(
                client_id,
                "greeting",
                welcome.as_slice(),
                QOS::AtMostOnce,
                false,
            ) {
                Err(e) => {
                    return CredentialCheck { publishes, result: Err(PluginError::Call(e)) };
                },
                Ok(c) => c,
            };
            publishes.push(first);
            publishes.push(second);
            CredentialCheck { publishes, result: Ok(Success) }
        } else {
            let snitch = concat_bytes(
                client_id.as_bytes(),
                " is a bad bad client. No cookies for it.".as_bytes(),
            );
            let call = match publish_broadcast(
                "snitcheroo",
                snitch.as_slice(),
                QOS::AtMostOnce,
                false,
            ) {
                Err(e) => {
                    return CredentialCheck { publishes, result: Err(PluginError::Call(e)) };
                },
                Ok(c) => c,
            };
            publishes.push(call);
            CredentialCheck { publishes, result: Err(PluginError::Auth) }
        }
    }

    /// Allows access to the configured topic only, whatever the level asked.
    pub fn acl_check(&self, level: AclCheckAccessLevel, msg: &MosquittoMessage) -> (r: Result<
        Success,
        PluginError,
    >)
        ensures
            r == (if msg.topic@ == self.s@ {
                Ok::<Success, PluginError>(Success)
            } else {
                Err::<Success, PluginError>(PluginError::AclDenied)
            }),
    {
        if msg.topic == self.s {
            Ok(Success)
        } else {
            Err(PluginError::AclDenied)
        }
    }
}

} // verus!
