//! The configuration part of an endpoint: named text values.

use vstd::prelude::*;

use crate::text::{opt_text, text_eq};

verus! {

/// Names a file with the root certificates, in PEM.
pub const TLS_ROOT_CA_CERTIFICATE_FILE: &'static str = "root_ca_certificate_file";

/// Holds the root certificates themselves, in PEM.
pub const TLS_ROOT_CA_CERTIFICATE_RAW: &'static str = "root_ca_certificate_raw";

/// Holds the PEM of the root certificates, in base64.
pub const TLS_ROOT_CA_CERTIFICATE_BASE64: &'static str = "root_ca_certificate_base64";

/// Names a file with the server's private key, in PEM.
pub const TLS_SERVER_PRIVATE_KEY_FILE: &'static str = "server_private_key_file";

/// Holds the server's private key itself, in PEM.
pub const TLS_SERVER_PRIVATE_KEY_RAW: &'static str = "server_private_key_raw";

/// Holds the PEM of the server's private key, in base64.
pub const TLS_SERVER_PRIVATE_KEY_BASE_64: &'static str = "server_private_key_base64";

/// Names a file with the server's certificates, in PEM.
pub const TLS_SERVER_CERTIFICATE_FILE: &'static str = "server_certificate_file";

/// Holds the server's certificates themselves, in PEM.
pub const TLS_SERVER_CERTIFICATE_RAW: &'static str = "server_certificate_raw";

/// Holds the PEM of the server's certificates, in base64.
pub const TLS_SERVER_CERTIFICATE_BASE64: &'static str = "server_certificate_base64";

/// Names a file with the client's private key, in PEM.
pub const TLS_CLIENT_PRIVATE_KEY_FILE: &'static str = "client_private_key_file";

/// Holds the client's private key itself, in PEM.
pub const TLS_CLIENT_PRIVATE_KEY_RAW: &'static str = "client_private_key_raw";

/// Holds the PEM of the client's private key, in base64.
pub const TLS_CLIENT_PRIVATE_KEY_BASE64: &'static str = "client_private_key_base64";

/// Names a file with the client's certificates, in PEM.
pub const TLS_CLIENT_CERTIFICATE_FILE: &'static str = "client_certificate_file";

/// Holds the client's certificates themselves, in PEM.
pub const TLS_CLIENT_CERTIFICATE_RAW: &'static str = "client_certificate_raw";

/// Holds the PEM of the client's certificates, in base64.
pub const TLS_CLIENT_CERTIFICATE_BASE64: &'static str = "client_certificate_base64";

/// Whether clients authenticate themselves with a certificate.
pub const TLS_CLIENT_AUTH: &'static str = "client_auth";

/// Whether a client checks the name in a server's certificate.
pub const TLS_SERVER_NAME_VERIFICATION: &'static str = "server_name_verification";

/// The value that each name has in a list of pairs. Where a name stands more than
/// once, the first pair counts.
pub open spec fn entries_map(entries: Seq<(String, String)>) -> Map<Seq<char>, Seq<char>>
    decreases entries.len(),
{
    if entries.len() == 0 {
        Map::empty()
    } else {
        entries_map(entries.drop_first()).insert(entries[0].0@, entries[0].1@)
    }
}

/// What a configuration says for a name.
pub open spec fn lookup(config: Map<Seq<char>, Seq<char>>, name: Seq<char>) -> Option<Seq<char>> {
    if config.contains_key(name) {
        Some(config[name])
    } else {
        None
    }
}

/// The truth value that a text stands for: exactly `true` and `false` stand for one.
pub open spec fn parsed_bool(text: Seq<char>) -> Option<bool> {
    if text == "true"@ {
        Some(true)
    } else if text == "false"@ {
        Some(false)
    } else {
        None
    }
}

/// The value of a switch: off where the configuration does not name it, and the text
/// itself as the error where the text is no truth value.
pub open spec fn switch(config: Map<Seq<char>, Seq<char>>, name: Seq<char>) -> Result<
    bool,
    Seq<char>,
> {
    match lookup(config, name) {
        None => Ok(false),
        Some(text) => match parsed_bool(text) {
            Some(b) => Ok(b),
            None => Err(text),
        },
    }
}

/// The configuration of an endpoint.
#[derive(Clone, Debug)]
pub struct Config {
    /// The names and their values, in the order in which they were written.
    pub entries: Vec<(String, String)>,
}

impl View for Config {
    type V = Map<Seq<char>, Seq<char>>;

    open spec fn view(&self) -> Map<Seq<char>, Seq<char>> {
        entries_map(self.entries@)
    }
}

proof fn lemma_entries_map(entries: Seq<(String, String)>, name: Seq<char>, i: int)
    requires
        0 <= i <= entries.len(),
        forall|j: int| 0 <= j < i ==> (#[trigger] entries[j]).0@ != name,
    ensures
        lookup(entries_map(entries), name) == lookup(entries_map(entries.skip(i)), name),
    decreases i,
{
    if i > 0 {
        let rest = entries.drop_first();
        assert forall|j: int| 0 <= j < i - 1 implies (#[trigger] rest[j]).0@ != name by {
            assert(rest[j] == entries[j + 1]);
        }
        lemma_entries_map(rest, name, i - 1);
        assert(rest.skip(i - 1) =~= entries.skip(i));
        assert(entries[0].0@ != name);
    } else {
        assert(entries.skip(0) =~= entries);
    }
}

impl Config {
    /// The value of a name, where the configuration holds one.
    pub fn get(&self, name: &str) -> (r: Option<&str>)
        ensures
            opt_text(r) == lookup(self@, name@),
    {
        let mut i: usize = 0;
        while i < self.entries.len()
            invariant
                i <= self.entries.len(),
                forall|j: int| 0 <= j < i ==> (#[trigger] self.entries@[j]).0@ != name@,
            decreases self.entries.len() - i,
        {
            if text_eq(self.entries[i].0.as_str(), name) {
                proof {
                    lemma_entries_map(self.entries@, name@, i as int);
                    assert(self.entries@.skip(i as int)[0] == self.entries@[i as int]);
                }
                return Some(self.entries[i].1.as_str());
            }
            i = i + 1;
        }
        proof {
            lemma_entries_map(self.entries@, name@, i as int);
            assert(self.entries@.skip(i as int).len() == 0);
        }
        None
    }

    /// The value of a switch. A switch that is not named is off; a value that is
    /// neither `true` nor `false` comes back as the error.
    pub fn switch(&self, name: &str) -> (r: Result<bool, String>)
        ensures
            match r {
                Ok(b) => switch(self@, name@) == Ok::<bool, Seq<char>>(b),
                Err(text) => switch(self@, name@) == Err::<bool, Seq<char>>(text@),
            },
    {
        match self.get(name) {
            None => Ok(false),
            Some(text) => {
                match parse_bool(text) {
                    Some(b) => Ok(b),
                    None => Err(text.to_owned()),
                }
            },
        }
    }
}

/// Reads a truth value: exactly `true` or `false`.
pub fn parse_bool(text: &str) -> (r: Option<bool>)
    ensures
        r == parsed_bool(text@),
{
    proof {
        reveal_strlit("true");
        reveal_strlit("false");
    }
    if text_eq(text, "true") {
        Some(true)
    } else if text_eq(text, "false") {
        Some(false)
    } else {
        None
    }
}

/// Where a name stands more than once, its first pair decides.
pub proof fn first_entry_decides(
    front: Seq<(String, String)>,
    name: String,
    value: String,
    back: Seq<(String, String)>,
)
    requires
        forall|j: int| 0 <= j < front.len() ==> (#[trigger] front[j]).0@ != name@,
    ensures
        lookup(entries_map(front.push((name, value)) + back), name@) == Some(value@),
{
    let all = front.push((name, value)) + back;
    assert forall|j: int| 0 <= j < front.len() implies (#[trigger] all[j]).0@ != name@ by {
        assert(all[j] == front[j]);
    }
    lemma_entries_map(all, name@, front.len() as int);
    assert(all.skip(front.len() as int)[0] == (name, value));
}

/// What a configuration says for a name is the value of the first pair with that name, and
/// nothing where no pair has it. The pairs of other names do not matter.
pub proof fn a_name_has_its_first_value(config: Config, name: Seq<char>, i: int)
    requires
        0 <= i <= config.entries@.len(),
        forall|j: int| 0 <= j < i ==> (#[trigger] config.entries@[j]).0@ != name,
    ensures
        i < config.entries@.len() && config.entries@[i].0@ == name ==> config@.contains_key(name)
            && config@[name] == config.entries@[i].1@,
        i == config.entries@.len() ==> !config@.contains_key(name),
{
    lemma_entries_map(config.entries@, name, i);
    if i < config.entries@.len() {
        assert(config.entries@.skip(i)[0] == config.entries@[i]);
    } else {
        assert(config.entries@.skip(i).len() == 0);
    }
}

/// Looking a name up gives its value exactly where the configuration holds the name.
pub proof fn lookup_gives_the_value(config: Map<Seq<char>, Seq<char>>, name: Seq<char>)
    ensures
        config.contains_key(name) <==> lookup(config, name) is Some,
        config.contains_key(name) ==> lookup(config, name) == Some(config[name]),
{
}

/// A switch is on exactly where its value is `true`, and off exactly where its value is
/// `false` or it has none. Any other value is refused, and comes back as it is.
pub proof fn switches_are_on_only_when_true(config: Map<Seq<char>, Seq<char>>, name: Seq<char>)
    ensures
        switch(config, name) == Ok::<bool, Seq<char>>(true) <==> config.contains_key(name)
            && config[name] == seq!['t', 'r', 'u', 'e'],
        switch(config, name) == Ok::<bool, Seq<char>>(false) <==> (!config.contains_key(name)
            || config[name] == seq!['f', 'a', 'l', 's', 'e']),
        switch(config, name) matches Err(text) ==> config.contains_key(name) && text
            == config[name],
{
    reveal_strlit("true");
    reveal_strlit("false");
    assert("true"@ =~= seq!['t', 'r', 'u', 'e']);
    assert("false"@ =~= seq!['f', 'a', 'l', 's', 'e']);
    assert("true"@.len() != "false"@.len());
}

/// A text is a truth value exactly where it is `true` or `false`.
pub proof fn only_two_texts_are_truth_values(text: Seq<char>)
    ensures
        parsed_bool(text) == Some(true) <==> text == seq!['t', 'r', 'u', 'e'],
        parsed_bool(text) == Some(false) <==> text == seq!['f', 'a', 'l', 's', 'e'],
{
    reveal_strlit("true");
    reveal_strlit("false");
    assert("true"@ =~= seq!['t', 'r', 'u', 'e']);
    assert("false"@ =~= seq!['f', 'a', 'l', 's', 'e']);
    assert("true"@.len() != "false"@.len());
}

} // verus!
