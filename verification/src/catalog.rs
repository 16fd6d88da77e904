//! The fixed catalogs: site identifiers with their host names, and preset
//! names with the ordered list of host names each expands to. Tokens are
//! matched case-insensitively, so the module also defines ASCII lowercasing.

use vstd::prelude::*;

verus! {

/// ASCII lowercasing of one character: uppercase ASCII letters map to
/// their lowercase counterpart, everything else is unchanged.
pub open spec fn lower_char(c: char) -> char {
    if 65 <= c as u32 && c as u32 <= 90 {
        (((c as u32) + 32) as u8) as char
    } else {
        c
    }
}

/// ASCII lowercasing of a character sequence, pointwise.
pub open spec fn lower_chars(s: Seq<char>) -> Seq<char> {
    Seq::new(s.len(), |i: int| lower_char(s[i]))
}

/// Executable counterpart of `lower_char`.
fn to_lower(c: char) -> (r: char)
    ensures
        r == lower_char(c),
{
    let u = c as u32;
    if 65 <= u && u <= 90 {
        ((u + 32) as u8) as char
    } else {
        c
    }
}

/// Whether `token`, lowercased, is exactly `key`.
pub fn token_matches(token: &str, key: &str) -> (r: bool)
    ensures
        r == (lower_chars(token@) == key@),
{
    let n = token.unicode_len();
    if n != key.unicode_len() {
        proof {
            assert(lower_chars(token@).len() != key@.len());
        }
        return false;
    }
    let mut i: usize = 0;
    while i < n
        invariant
            i <= n,
            n == token@.len(),
            n == key@.len(),
            forall|j: int| 0 <= j < i ==> lower_char(token@[j]) == key@[j],
        decreases n - i,
    {
        let tc = to_lower(token.get_char(i));
        let kc = key.get_char(i);
        if tc != kc {
            proof {
                assert(lower_chars(token@)[i as int] != key@[i as int]);
            }
            return false;
        }
        i += 1;
    }
    proof {
        assert(lower_chars(token@) =~= key@);
    }
    true
}

/// The site catalog: for a lowercase site identifier, the host name that
/// is written into the blocklist; `None` for anything else.
pub open spec fn site_host(key: Seq<char>) -> Option<Seq<char>> {
    if key == "youtube"@ {
        Some("www.youtube.com"@)
    } else if key == "netflix"@ {
        Some("netflix.com"@)
    } else if key == "x"@ {
        Some("www.x.com"@)
    } else if key == "instagram"@ {
        Some("www.instagram.com"@)
    } else if key == "meta"@ {
        Some("www.facebook.com"@)
    } else if key == "facebook"@ {
        Some("www.facebook.com"@)
    } else if key == "discord"@ {
        Some("discord.com"@)
    } else if key == "whatsapp"@ {
        Some("web.whatsapp.com"@)
    } else {
        None
    }
}

/// The preset catalog: for a lowercase preset name, the ordered list of
/// host names it expands to; `None` for anything else.
pub open spec fn preset_hosts(name: Seq<char>) -> Option<Seq<Seq<char>>> {
    if name == "all"@ {
        Some(
            seq![
                "www.youtube.com"@,
                "www.x.com"@,
                "netflix.com"@,
                "www.facebook.com"@,
                "www.instagram.com"@,
                "discord.com"@,
                "web.whatsapp.com"@,
            ],
        )
    } else if name == "studying"@ {
        Some(
            seq![
                "www.youtube.com"@,
                "www.x.com"@,
                "netflix.com"@,
                "www.facebook.com"@,
                "www.instagram.com"@,
                "discord.com"@,
                "web.whatsapp.com"@,
            ],
        )
    } else if name == "studying_yt"@ {
        Some(
            seq![
                "www.x.com"@,
                "netflix.com"@,
                "www.facebook.com"@,
                "www.instagram.com"@,
                "discord.com"@,
                "web.whatsapp.com"@,
            ],
        )
    } else if name == "coding"@ {
        Some(
            seq![
                "www.youtube.com"@,
                "www.x.com"@,
                "www.facebook.com"@,
                "www.instagram.com"@,
                "discord.com"@,
                "web.whatsapp.com"@,
            ],
        )
    } else if name == "coding_yt"@ {
        Some(
            seq![
                "www.x.com"@,
                "www.facebook.com"@,
                "www.instagram.com"@,
                "discord.com"@,
                "web.whatsapp.com"@,
                "netflix.com"@,
            ],
        )
    } else {
        None
    }
}

/// Whether the lowercased token names a preset of the catalog.
pub open spec fn is_preset(name: Seq<char>) -> bool {
    preset_hosts(name) is Some
}

/// Whether the lowercased token names a site of the catalog.
pub open spec fn is_site(key: Seq<char>) -> bool {
    site_host(key) is Some
}

/// Appends one host name, given as a string slice, to a vector of owned
/// host names.
fn push_host(v: &mut Vec<String>, h: &str)
    ensures
        final(v).deep_view() == old(v).deep_view().push(h@),
{
    let s: String = h.to_owned();
    v.push(s);
    proof {
        assert(v.deep_view() =~= old(v).deep_view().push(h@));
    }
}

/// The host names of the site that the token names, if any, matched
/// case-insensitively against the site catalog.
pub fn site_lookup(token: &String) -> (r: Option<String>)
    ensures
        match site_host(lower_chars(token@)) {
            Some(h) => r is Some && r->0@ == h,
            None => r is None,
        },
{
    let t = token.as_str();
    if token_matches(t, "youtube") {
        Some("www.youtube.com".to_owned())
    } else if token_matches(t, "netflix") {
        Some("netflix.com".to_owned())
    } else if token_matches(t, "x") {
        Some("www.x.com".to_owned())
    } else if token_matches(t, "instagram") {
        Some("www.instagram.com".to_owned())
    } else if token_matches(t, "meta") {
        Some("www.facebook.com".to_owned())
    } else if token_matches(t, "facebook") {
        Some("www.facebook.com".to_owned())
    } else if token_matches(t, "discord") {
        Some("discord.com".to_owned())
    } else if token_matches(t, "whatsapp") {
        Some("web.whatsapp.com".to_owned())
    } else {
        None
    }
}

/// The ordered host-name list of a preset category.
///
/// The caller must already have gated the name against the catalog: an
/// unknown preset is an internal-invariant violation, not user input, so
/// it is excluded by precondition rather than handled at run time.
pub fn add_website_based_on_preset(preset: &String) -> (r: Vec<String>)
    requires
        is_preset(lower_chars(preset@)),
    ensures
        r.deep_view() == preset_hosts(lower_chars(preset@))->0,
{
    let t = preset.as_str();
    let mut webs: Vec<String> = Vec::new();
    if token_matches(t, "all") || token_matches(t, "studying") {
        push_host(&mut webs, "www.youtube.com");
        push_host(&mut webs, "www.x.com");
        push_host(&mut webs, "netflix.com");
        push_host(&mut webs, "www.facebook.com");
        push_host(&mut webs, "www.instagram.com");
        push_host(&mut webs, "discord.com");
        push_host(&mut webs, "web.whatsapp.com");
    } else if token_matches(t, "studying_yt") {
        push_host(&mut webs, "www.x.com");
        push_host(&mut webs, "netflix.com");
        push_host(&mut webs, "www.facebook.com");
        push_host(&mut webs, "www.instagram.com");
        push_host(&mut webs, "discord.com");
        push_host(&mut webs, "web.whatsapp.com");
    } else if token_matches(t, "coding") {
        push_host(&mut webs, "www.youtube.com");
        push_host(&mut webs, "www.x.com");
        push_host(&mut webs, "www.facebook.com");
        push_host(&mut webs, "www.instagram.com");
        push_host(&mut webs, "discord.com");
        push_host(&mut webs, "web.whatsapp.com");
    } else if token_matches(t, "coding_yt") {
        push_host(&mut webs, "www.x.com");
        push_host(&mut webs, "www.facebook.com");
        push_host(&mut webs, "www.instagram.com");
        push_host(&mut webs, "discord.com");
        push_host(&mut webs, "web.whatsapp.com");
        push_host(&mut webs, "netflix.com");
    }
    proof {
        assert(webs.deep_view() =~= preset_hosts(lower_chars(preset@))->0);
    }
    webs
}

} // verus!
