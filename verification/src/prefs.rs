use vstd::prelude::*;
use vstd::string::StrSliceExecFns;

verus! {

/// `needle` occurs in `hay` starting at `i`.
pub open spec fn occurs_at(hay: Seq<char>, needle: Seq<char>, i: int) -> bool {
    0 <= i && i + needle.len() <= hay.len() && hay.subrange(i, i + needle.len()) == needle
}

/// `i` is where `needle` first occurs in `hay`.
pub open spec fn first_occurrence(hay: Seq<char>, needle: Seq<char>, i: int) -> bool {
    occurs_at(hay, needle, i) && forall|j: int| 0 <= j < i ==> !#[trigger] occurs_at(hay, needle, j)
}

/// `needle` occurs somewhere in `hay`.
pub open spec fn contains_seq(hay: Seq<char>, needle: Seq<char>) -> bool {
    exists|i: int| #[trigger] occurs_at(hay, needle, i)
}

/// The tag that opens the value of `key` in a preferences file: `<key>`.
pub open spec fn open_tag(key: Seq<char>) -> Seq<char> {
    seq!['<'] + key + seq!['>']
}

/// The tag that closes the value of `key` in a preferences file: `</key>`.
pub open spec fn close_tag(key: Seq<char>) -> Seq<char> {
    seq!['<', '/'] + key + seq!['>']
}

/// The characters of `s`.
pub fn chars_of(s: &str) -> (r: Vec<char>)
    ensures
        r@ == s@,
{
    let mut r: Vec<char> = Vec::new();
    for c in it: s.chars()
        invariant
            it.seq() == s@,
            r@ == it.seq().take(it.index() as int),
    {
        r.push(c);
        assert(r@ =~= it.seq().take(it.index() as int + 1));
    }
    assert(r@ =~= s@);
    r
}

/// Whether `needle` occurs in `hay` at `i`.
fn matches_at(hay: &Vec<char>, needle: &Vec<char>, i: usize) -> (r: bool)
    ensures
        r == occurs_at(hay@, needle@, i as int),
{
    if i as u128 + needle.len() as u128 > hay.len() as u128 {
        return false;
    }
    let mut k: usize = 0;
    let hl = hay.len();
    while k < needle.len()
        invariant
            i + needle@.len() <= hay@.len(),
            hl == hay@.len(),
            k <= needle@.len(),
            forall|j: int| 0 <= j < k ==> hay@[i + j] == #[trigger] needle@[j],
        decreases needle@.len() - k,
    {
        if hay[i + k] != needle[k] {
            assert(hay@.subrange(i as int, i + needle@.len())[k as int] != needle@[k as int]);
            return false;
        }
        k = k + 1;
    }
    assert(hay@.subrange(i as int, i + needle@.len()) =~= needle@);
    true
}

/// Where `needle` first occurs in `hay`, if it does.
pub fn find_first(hay: &Vec<char>, needle: &Vec<char>) -> (r: Option<usize>)
    ensures
        match r {
            Some(i) => first_occurrence(hay@, needle@, i as int),
            None => !contains_seq(hay@, needle@),
        },
{
    let mut i: usize = 0;
    loop
        invariant
            i <= hay@.len(),
            forall|j: int| 0 <= j < i ==> !#[trigger] occurs_at(hay@, needle@, j),
        decreases hay@.len() - i,
    {
        if matches_at(hay, needle, i) {
            return Some(i);
        }
        if i == hay.len() {
            assert forall|j: int| !#[trigger] occurs_at(hay@, needle@, j) by {
                if 0 <= j < i {
                } else if j > hay@.len() {
                }
            }
            return None;
        }
        i = i + 1;
    }
}

/// The characters of `key` between `open` and `close`.
fn tag_chars(open: &str, key: &Vec<char>, close: char) -> (r: Vec<char>)
    ensures
        r@ == open@ + key@ + seq![close],
{
    let mut r = chars_of(open);
    let mut i: usize = 0;
    let ghost start = r@;
    while i < key.len()
        invariant
            i <= key@.len(),
            r@ == start + key@.take(i as int),
        decreases key@.len() - i,
    {
        r.push(key[i]);
        i = i + 1;
        assert(r@ =~= start + key@.take(i as int));
    }
    assert(key@.take(key@.len() as int) =~= key@);
    r.push(close);
    r
}

/// The value stored under `key` in the text of a preferences file: the text
/// between the first `<key>` and the first `</key>`, when the latter comes
/// after the former's end.
pub fn extract_pref_value(content: &str, key: &str) -> (r: Option<String>)
    ensures
        ({
            let open = open_tag(key@);
            let close = close_tag(key@);
            match r {
                Some(v) => exists|s: int, e: int|
                    first_occurrence(content@, open, s) && first_occurrence(content@, close, e) && e
                        > s + open.len() && v@ == content@.subrange(s + open.len(), e),
                None => forall|s: int, e: int|
                    first_occurrence(content@, open, s) && first_occurrence(content@, close, e)
                        ==> e <= s + open.len(),
            }
        }),
{
    proof {
        reveal_strlit("<");
        reveal_strlit("</");
    }
    let text = chars_of(content);
    let text_len = text.len();
    let key_chars = chars_of(key);
    let open = tag_chars("<", &key_chars, '>');
    let close = tag_chars("</", &key_chars, '>');
    assert(open@ =~= open_tag(key@));
    assert(close@ =~= close_tag(key@));
    match find_first(&text, &open) {
        None => {
            assert forall|s: int, e: int|
                first_occurrence(content@, open_tag(key@), s) && first_occurrence(
                    content@,
                    close_tag(key@),
                    e,
                ) implies e <= s + open_tag(key@).len() by {
                assert(occurs_at(text@, open@, s));
            }
            None
        },
        Some(s) => match find_first(&text, &close) {
            None => {
                assert forall|s2: int, e: int|
                    first_occurrence(content@, open_tag(key@), s2) && first_occurrence(
                        content@,
                        close_tag(key@),
                        e,
                    ) implies e <= s2 + open_tag(key@).len() by {
                    assert(occurs_at(text@, close@, e));
                }
                None
            },
            Some(e) => {
                let from: usize = s + open.len();
                if e > from {
                    let v = content.substring_char(from, e).to_owned();
                    Some(v)
                } else {
                    assert forall|s2: int, e2: int|
                        first_occurrence(content@, open_tag(key@), s2) && first_occurrence(
                            content@,
                            close_tag(key@),
                            e2,
                        ) implies e2 <= s2 + open_tag(key@).len() by {
                        if s2 < s {
                            assert(occurs_at(text@, open@, s2));
                        } else if s < s2 {
                            assert(occurs_at(text@, open@, s as int));
                        }
                        if e2 < e {
                            assert(occurs_at(text@, close@, e2));
                        } else if e < e2 {
                            assert(occurs_at(text@, close@, e as int));
                        }
                    }
                    None
                }
            },
        },
    }
}

/// The characters that Unicode gives the White_Space property.
pub open spec fn is_white_space(c: char) -> bool {
    let v = c as int;
    (0x9 <= v <= 0xD) || v == 0x20 || v == 0x85 || v == 0xA0 || v == 0x1680 || (0x2000 <= v
        <= 0x200A) || v == 0x2028 || v == 0x2029 || v == 0x202F || v == 0x205F || v == 0x3000
}

/// The word `true`.
pub open spec fn word_true() -> Seq<char> {
    seq!['t', 'r', 'u', 'e']
}

/// `s` is the word `true` with nothing but white space around it.
pub open spec fn trims_to_true(s: Seq<char>) -> bool {
    exists|i: int|
        {
            &&& occurs_at(s, word_true(), i)
            &&& forall|k: int| 0 <= k < i ==> #[trigger] is_white_space(s[k])
            &&& forall|k: int| i + 4 <= k < s.len() ==> #[trigger] is_white_space(s[k])
        }
}

/// Whether `c` is white space.
pub fn white_space(c: char) -> (r: bool)
    ensures
        r == is_white_space(c),
{
    let v: u32 = c as u32;
    (0x9 <= v && v <= 0xD) || v == 0x20 || v == 0x85 || v == 0xA0 || v == 0x1680 || (0x2000 <= v
        && v <= 0x200A) || v == 0x2028 || v == 0x2029 || v == 0x202F || v == 0x205F || v == 0x3000
}

/// The meaning of a boolean preference: present values are true exactly when,
/// apart from surrounding white space, they read `true`.
pub fn get_adobe_pref_bool(raw: Option<String>) -> (r: Option<bool>)
    ensures
        match raw {
            Some(s) => r == Some(trims_to_true(s@)),
            None => r is None,
        },
{
    match raw {
        None => None,
        Some(s) => {
            let chars = chars_of(s.as_str());
            let n = chars.len();
            let mut a: usize = 0;
            while a < n && white_space(chars[a])
                invariant
                    a <= n,
                    n == chars@.len(),
                    forall|k: int| 0 <= k < a ==> #[trigger] is_white_space(chars@[k]),
                decreases n - a,
            {
                a = a + 1;
            }
            let mut b: usize = n;
            while b > a && white_space(chars[b - 1])
                invariant
                    a <= b <= n,
                    n == chars@.len(),
                    forall|k: int| b <= k < n ==> #[trigger] is_white_space(chars@[k]),
                decreases b - a,
            {
                b = b - 1;
            }
            let found = b - a == 4 && chars[a] == 't' && chars[a + 1] == 'r' && chars[a + 2] == 'u'
                && chars[a + 3] == 'e';
            proof {
                let t = word_true();
                if found {
                    assert(chars@.subrange(a as int, a + 4) =~= t);
                    assert(occurs_at(chars@, t, a as int));
                } else {
                    assert forall|i: int|
                        !({
                            &&& occurs_at(chars@, t, i)
                            &&& forall|k: int| 0 <= k < i ==> #[trigger] is_white_space(chars@[k])
                            &&& forall|k: int|
                                i + 4 <= k < chars@.len() ==> #[trigger] is_white_space(chars@[k])
                        }) by {
                        if occurs_at(chars@, t, i) && (forall|k: int|
                            0 <= k < i ==> #[trigger] is_white_space(chars@[k])) && (forall|k: int|
                            i + 4 <= k < chars@.len() ==> #[trigger] is_white_space(chars@[k])) {
                            assert(chars@[i] == chars@.subrange(i, i + 4)[0]);
                            assert(chars@[i + 3] == chars@.subrange(i, i + 4)[3]);
                            assert(chars@[i + 1] == chars@.subrange(i, i + 4)[1]);
                            assert(chars@[i + 2] == chars@.subrange(i, i + 4)[2]);
                            assert(!is_white_space(chars@[i]));
                            assert(!is_white_space(chars@[i + 3]));
                            if a < i {
                                assert(is_white_space(chars@[a as int]));
                            }
                            if a > i {
                                assert(is_white_space(chars@[i]));
                            }
                            if b > i + 4 {
                                assert(is_white_space(chars@[b - 1]));
                            }
                            if b < i + 4 {
                                assert(is_white_space(chars@[i + 3]));
                            }
                        }
                    }
                }
            }
            Some(found)
        },
    }
}

/// Whether the host uses graphics acceleration, given the preference when it
/// is known: it does unless the preference says otherwise.
pub fn is_gpu_acceleration_enabled(pref: Option<bool>) -> (r: bool)
    ensures
        r == match pref {
            Some(b) => b,
            None => true,
        },
{
    match pref {
        Some(b) => b,
        None => true,
    }
}

/// The prefix of the host's profile folder names.
pub open spec fn profile_prefix() -> Seq<char> {
    seq!['P', 'r', 'o', 'f', 'i', 'l', 'e', '-']
}

/// Whether a folder name is that of a profile folder: it begins with
/// `Profile-`.
pub fn is_profile_dir_name(name: &str) -> (r: bool)
    ensures
        r == occurs_at(name@, profile_prefix(), 0),
{
    let chars = chars_of(name);
    let prefix = chars_of("Profile-");
    proof {
        reveal_strlit("Profile-");
        assert(prefix@ =~= profile_prefix());
    }
    matches_at(&chars, &prefix, 0)
}

/// The setting that makes the importer keep the host's audio cache.
pub open spec fn cache_on_setting() -> Seq<char> {
    "enable_audio_cache=true"@
}

/// The setting that makes the importer avoid the host's audio cache.
pub open spec fn cache_off_setting() -> Seq<char> {
    "enable_audio_cache=false"@
}

/// Whether the importer asks the host not to build audio cache files.
/// Without a configuration folder: no. Otherwise the configuration text
/// decides when it could be read and names a setting
/// (`enable_audio_cache=true`: no; else `enable_audio_cache=false`: yes);
/// after that the host's "media cache next to the originals" preference
/// decides when it is known, and the answer is yes when it is not.
pub fn should_avoid_audio_conform(
    config_dir_known: bool,
    config: Option<&str>,
    side_by_side: Option<bool>,
) -> (r: bool)
    ensures
        r == (if !config_dir_known {
            false
        } else if config is Some && contains_seq(config->0@, cache_on_setting()) {
            false
        } else if config is Some && contains_seq(config->0@, cache_off_setting()) {
            true
        } else {
            match side_by_side {
                Some(b) => b,
                None => true,
            }
        }),
{
    if !config_dir_known {
        return false;
    }
    if let Some(text) = config {
        let chars = chars_of(text);
        let on = chars_of("enable_audio_cache=true");
        let off = chars_of("enable_audio_cache=false");
        if find_first(&chars, &on).is_some() {
            return false;
        }
        if find_first(&chars, &off).is_some() {
            return true;
        }
    }
    match side_by_side {
        Some(b) => b,
        None => true,
    }
}

} // verus!
