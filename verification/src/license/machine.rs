//! The fingerprint of the machine a license is bound to.
//!
//! The fingerprint is a hash of what the environment says of the machine:
//! the name of the host, the name of the account and, where the platform has
//! one, the identifier of the processor. It binds softly: whoever changes
//! those names changes the fingerprint.

use crate::license::validator::LicenseValidator;
use crate::text::{hex_text, push_hex};
use std::collections::hash_map::DefaultHasher;
use std::hash::{Hash, Hasher};
use vstd::prelude::*;
use vstd::std_specs::hash::DefaultHasherAdditionalSpecFns;
use vstd::string::*;

verus! {

/// What the environment says of the machine. Each entry is the value of the
/// environment variable of that name, or `None` where it is not set.
#[derive(Debug, PartialEq, Eq)]
pub struct MachineEnvironment {
    /// `COMPUTERNAME`.
    pub computername: Option<String>,
    /// `HOSTNAME`, looked at only where `COMPUTERNAME` is not set.
    pub hostname: Option<String>,
    /// `USERNAME`.
    pub username: Option<String>,
    /// `USER`, looked at only where `USERNAME` is not set.
    pub user: Option<String>,
    /// `PROCESSOR_IDENTIFIER`; the host fills it in on Windows alone.
    pub processor_identifier: Option<String>,
}

/// The writes by which the standard library feeds a piece of text to a
/// hasher.
pub uninterp spec fn text_hash_writes(text: Seq<char>) -> Seq<Seq<u8>>;

/// The writes that feed an attribute to a hasher: none where it is not set.
pub open spec fn attribute_writes(attribute: Option<String>) -> Seq<Seq<u8>> {
    match attribute {
        Some(text) => text_hash_writes(text@),
        None => Seq::empty(),
    }
}

/// The first of two attributes that is set.
pub open spec fn first_set(first: Option<String>, second: Option<String>) -> Option<String> {
    if first is Some {
        first
    } else {
        second
    }
}

/// Everything written to the hasher for a machine: host name, account name,
/// processor identifier, in this order, each as far as it is set.
pub open spec fn fingerprint_writes(environment: MachineEnvironment) -> Seq<Seq<u8>> {
    attribute_writes(first_set(environment.computername, environment.hostname))
        + attribute_writes(first_set(environment.username, environment.user))
        + attribute_writes(environment.processor_identifier)
}

/// The hash of a machine's attributes.
pub open spec fn fingerprint(environment: MachineEnvironment) -> u64 {
    DefaultHasher::spec_finish(fingerprint_writes(environment))
}

/// The machine code for a machine: `MC-` and the sixteen hexadecimal digits
/// of its fingerprint, letters in upper case.
pub open spec fn machine_code_text(environment: MachineEnvironment) -> Seq<char> {
    "MC-"@ + hex_text(fingerprint(environment) as nat, 16)
}

/// Calls `Hash::hash` of `str` on a `DefaultHasher`.
///
/// Trusted: that the writes it makes to the hasher depend on the text alone,
/// and come after those already made.
#[verifier::external_body]
fn feed_text(hasher: &mut DefaultHasher, text: &str)
    ensures
        final(hasher)@ == old(hasher)@ + text_hash_writes(text@),
{
    text.hash(hasher);
}

/// Feeds an attribute to the hasher where it is set.
fn feed_attribute(hasher: &mut DefaultHasher, attribute: &Option<String>)
    ensures
        final(hasher)@ == old(hasher)@ + attribute_writes(*attribute),
{
    match attribute {
        Some(text) => {
            feed_text(hasher, text.as_str());
        },
        None => {
            assert(hasher@ =~= old(hasher)@ + Seq::<Seq<u8>>::empty());
        },
    }
}

impl LicenseValidator {
    /// The machine code for the machine that the environment describes. The
    /// same environment gives the same code, in every process.
    pub fn get_machine_code(environment: &MachineEnvironment) -> (code: String)
        ensures
            code@ == machine_code_text(*environment),
            code@.len() == 19,
    {
        let mut hasher = DefaultHasher::new();
        if environment.computername.is_some() {
            feed_attribute(&mut hasher, &environment.computername);
        } else {
            feed_attribute(&mut hasher, &environment.hostname);
        }
        if environment.username.is_some() {
            feed_attribute(&mut hasher, &environment.username);
        } else {
            feed_attribute(&mut hasher, &environment.user);
        }
        feed_attribute(&mut hasher, &environment.processor_identifier);
        assert(hasher@ =~= fingerprint_writes(*environment));
        let hash = hasher.finish();
        let mut code = String::from_str("MC-");
        push_hex(&mut code, hash, 16);
        proof {
            reveal_strlit("MC-");
            lemma_hex_text_len(hash as nat, 16);
        }
        code
    }
}

/// A number written with `width` hexadecimal digits has `width` characters.
pub proof fn lemma_hex_text_len(n: nat, width: nat)
    ensures
        hex_text(n, width).len() == width,
    decreases width,
{
    if width > 0 {
        lemma_hex_text_len(n / 16, (width - 1) as nat);
    }
}

} // verus!
