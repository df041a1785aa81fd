//! What the engine advertises over mDNS: clients browse for `_muxdeck._tcp.local.`, and the
//! fingerprint in the TXT record lets a paired client recognise this host after an IP change.
//! Running the responder is the caller's part.
use vstd::prelude::*;

use crate::protocol::envelope::PROTOCOL_VERSION;
use crate::text::{
    decimal, decimal_spec, is_control, is_control_spec, is_white_space_spec, owned, push_char, trim,
    trim_end_spec, trim_spec, trim_start_spec,
};

verus! {

/// The service type clients browse for. It must match what the iOS client declares, or
/// discovery there silently finds nothing.
pub const SERVICE_TYPE: &'static str = "_muxdeck._tcp.local.";

/// `name` with dots made dashes and control characters dropped.
pub open spec fn cleaned(name: Seq<char>) -> Seq<char>
    decreases name.len(),
{
    if name.len() == 0 {
        Seq::empty()
    } else {
        let c = name.last();
        let rest = cleaned(name.drop_last());
        if c == '.' {
            rest.push('-')
        } else if is_control_spec(c) {
            rest
        } else {
            rest.push(c)
        }
    }
}

/// An mDNS instance name: no dots, which are label separators, no control characters, trimmed,
/// and `MuxDeck` rather than nothing.
pub open spec fn sanitise_spec(name: Seq<char>) -> Seq<char> {
    let t = trim_spec(cleaned(name));
    if t.len() == 0 {
        "MuxDeck"@
    } else {
        t
    }
}

pub fn sanitise(name: &str) -> (r: String)
    ensures
        r@ == sanitise_spec(name@),
{
    let n = name.unicode_len();
    let mut out = String::new();
    let mut i: usize = 0;
    while i < n
        invariant
            n == name@.len(),
            i <= n,
            out@ == cleaned(name@.take(i as int)),
        decreases n - i,
    {
        let c = name.get_char(i);
        assert(name@.take(i + 1).drop_last() =~= name@.take(i as int));
        if c == '.' {
            push_char(&mut out, '-');
        } else if !is_control(c) {
            push_char(&mut out, c);
        }
        i = i + 1;
    }
    assert(name@.take(n as int) =~= name@);
    let t = trim(out.as_str());
    if t.unicode_len() == 0 {
        owned("MuxDeck")
    } else {
        owned(t)
    }
}

/// The host name the record resolves under: mDNS names end in `.local.`.
pub fn mdns_hostname(instance_name: &str) -> (r: String)
    ensures
        r@ == sanitise_spec(instance_name@) + ".local."@,
{
    let mut s = sanitise(instance_name);
    s.append(".local.");
    s
}

/// The TXT record: the protocol version, the host ID, the human name and the certificate
/// fingerprint, in that order.
pub fn txt_properties(instance_name: &str, host_id: &str, fingerprint: &str) -> (r: Vec<(String, String)>)
    ensures
        r@.len() == 4,
        r@[0].0@ == "v"@ && r@[0].1@ == decimal_spec(PROTOCOL_VERSION as nat),
        r@[1].0@ == "id"@ && r@[1].1@ == host_id@,
        r@[2].0@ == "name"@ && r@[2].1@ == instance_name@,
        r@[3].0@ == "fp"@ && r@[3].1@ == fingerprint@,
{
    let mut r: Vec<(String, String)> = Vec::new();
    r.push((owned("v"), decimal(PROTOCOL_VERSION as u64)));
    r.push((owned("id"), owned(host_id)));
    r.push((owned("name"), owned(instance_name)));
    r.push((owned("fp"), owned(fingerprint)));
    r
}

/// No character of `s` is a dot or a control character.
pub open spec fn is_label_safe(s: Seq<char>) -> bool {
    forall|i: int| 0 <= i < s.len() ==> (#[trigger] s[i]) != '.' && !is_control_spec(s[i])
}

proof fn lemma_cleaned_is_safe(name: Seq<char>)
    ensures
        is_label_safe(cleaned(name)),
    decreases name.len(),
{
    if name.len() > 0 {
        lemma_cleaned_is_safe(name.drop_last());
    }
}

proof fn lemma_trim_start_keeps_safety(s: Seq<char>)
    requires
        is_label_safe(s),
    ensures
        is_label_safe(trim_start_spec(s)),
    decreases s.len(),
{
    if s.len() > 0 && is_white_space_spec(s[0]) {
        assert forall|i: int| 0 <= i < s.drop_first().len() implies (#[trigger] s.drop_first()[i]) != '.'
            && !is_control_spec(s.drop_first()[i]) by {
            assert(s.drop_first()[i] == s[i + 1]);
        }
        lemma_trim_start_keeps_safety(s.drop_first());
    }
}

proof fn lemma_trim_end_keeps_safety(s: Seq<char>)
    requires
        is_label_safe(s),
    ensures
        is_label_safe(trim_end_spec(s)),
    decreases s.len(),
{
    if s.len() > 0 && is_white_space_spec(s.last()) {
        assert forall|i: int| 0 <= i < s.drop_last().len() implies (#[trigger] s.drop_last()[i]) != '.'
            && !is_control_spec(s.drop_last()[i]) by {
            assert(s.drop_last()[i] == s[i]);
        }
        lemma_trim_end_keeps_safety(s.drop_last());
    }
}

/// Whatever name the host has, what is advertised is a valid instance label: never empty, with
/// no dot (a label separator) and no control character in it.
pub proof fn law_advertised_names_are_valid_labels(name: Seq<char>)
    ensures
        sanitise_spec(name).len() > 0,
        is_label_safe(sanitise_spec(name)),
{
    lemma_cleaned_is_safe(name);
    lemma_trim_start_keeps_safety(cleaned(name));
    lemma_trim_end_keeps_safety(trim_start_spec(cleaned(name)));
    reveal_strlit("MuxDeck");
    assert(is_label_safe("MuxDeck"@)) by {
        assert forall|i: int| 0 <= i < "MuxDeck"@.len() implies (#[trigger] "MuxDeck"@[i]) != '.'
            && !is_control_spec("MuxDeck"@[i]) by {
            assert("MuxDeck"@[i] == 'M' || "MuxDeck"@[i] == 'u' || "MuxDeck"@[i] == 'x' || "MuxDeck"@[i]
                == 'D' || "MuxDeck"@[i] == 'e' || "MuxDeck"@[i] == 'c' || "MuxDeck"@[i] == 'k');
        }
    }
}

} // verus!
