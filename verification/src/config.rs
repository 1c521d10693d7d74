//! Parsing of the `key=value;key=value` settings that describe the devices.
use vstd::prelude::*;
use crate::{Embedded, Pc};

verus! {

/// The pieces of `s` between occurrences of `sep`, as `str::split` with a
/// character pattern yields them (there is always at least one piece).
pub open spec fn split_on(s: Seq<char>, sep: char) -> Seq<Seq<char>>
    decreases s.len(),
{
    if s.len() == 0 {
        seq![seq![]]
    } else {
        let prev = split_on(s.drop_last(), sep);
        if s.last() == sep {
            prev.push(seq![])
        } else {
            prev.update(prev.len() - 1, prev.last().push(s.last()))
        }
    }
}

/// Splitting always yields at least one piece.
pub proof fn lemma_split_nonempty(s: Seq<char>, sep: char)
    ensures
        split_on(s, sep).len() >= 1,
    decreases s.len(),
{
    if s.len() > 0 {
        lemma_split_nonempty(s.drop_last(), sep);
    }
}

/// A text without the separator is a single piece.
pub proof fn lemma_split_no_sep(s: Seq<char>, sep: char)
    requires
        forall|i: int| 0 <= i < s.len() ==> s[i] != sep,
    ensures
        split_on(s, sep) == seq![s],
    decreases s.len(),
{
    if s.len() > 0 {
        lemma_split_no_sep(s.drop_last(), sep);
        assert(s.drop_last().push(s.last()) =~= s);
        assert(split_on(s, sep) =~= seq![s]);
    } else {
        assert(s =~= Seq::<char>::empty());
    }
}

/// The pieces around one separator are the pieces of each side.
pub proof fn lemma_split_concat(a: Seq<char>, b: Seq<char>, sep: char)
    ensures
        split_on(a.push(sep) + b, sep) == split_on(a, sep) + split_on(b, sep),
    decreases b.len(),
{
    if b.len() == 0 {
        assert(a.push(sep) + b =~= a.push(sep));
        assert(a.push(sep).drop_last() =~= a);
        assert(split_on(a, sep) + split_on(b, sep) =~= split_on(a, sep).push(seq![]));
    } else {
        let b0 = b.drop_last();
        let c = b.last();
        lemma_split_concat(a, b0, sep);
        lemma_split_nonempty(b0, sep);
        assert((a.push(sep) + b).drop_last() =~= a.push(sep) + b0);
        assert((a.push(sep) + b).last() == c);
        let prev = split_on(a.push(sep) + b0, sep);
        if c == sep {
            assert(split_on(a, sep) + split_on(b, sep) =~= prev.push(seq![]));
        } else {
            assert(split_on(a, sep) + split_on(b, sep) =~= prev.update(
                prev.len() - 1,
                prev.last().push(c),
            ));
        }
    }
}

/// One `key=value` setting: the key is the text before the first `=`, the
/// value the text between the first and the second `=` (or the end); a
/// setting without `=` has no value.
pub open spec fn setting(part: Seq<char>) -> (Seq<char>, Option<Seq<char>>) {
    let kv = split_on(part, '=');
    (kv[0], if kv.len() >= 2 { Some(kv[1]) } else { None })
}

/// The settings of `parts`, read in order: the last value given to each
/// key, or the error of the first setting that has no value or a key
/// outside `keys`.
pub open spec fn settings_of(parts: Seq<Seq<char>>, keys: Seq<Seq<char>>) -> Result<
    Map<Seq<char>, Seq<char>>,
    Seq<char>,
>
    decreases parts.len(),
{
    if parts.len() == 0 {
        Ok(Map::empty())
    } else {
        match settings_of(parts.drop_last(), keys) {
            Err(e) => Err(e),
            Ok(m) => {
                let (key, value) = setting(parts.last());
                match value {
                    None => Err(parts.last() + " has no next!"@),
                    Some(v) => if keys.contains(key) {
                        Ok(m.insert(key, v))
                    } else {
                        Err("Not handling key "@ + key)
                    },
                }
            },
        }
    }
}

/// The settings of a whole `;`-separated text.
pub open spec fn config_of(text: Seq<char>, keys: Seq<Seq<char>>) -> Result<
    Map<Seq<char>, Seq<char>>,
    Seq<char>,
> {
    settings_of(split_on(text, ';'), keys)
}

proof fn lemma_settings_err_extends(x: Seq<Seq<char>>, y: Seq<Seq<char>>, keys: Seq<Seq<char>>)
    requires
        settings_of(x, keys) is Err,
    ensures
        settings_of(x + y, keys) == settings_of(x, keys),
    decreases y.len(),
{
    if y.len() == 0 {
        assert(x + y =~= x);
    } else {
        lemma_settings_err_extends(x, y.drop_last(), keys);
        assert((x + y).drop_last() =~= x + y.drop_last());
    }
}

/// First index at or after `from` where `s` holds `c`, or the length of `s`.
pub fn find_char(s: &str, c: char, from: usize) -> (r: usize)
    requires
        from <= s@.len(),
    ensures
        from <= r <= s@.len(),
        r < s@.len() ==> s@[r as int] == c,
        forall|i: int| from <= i < r ==> s@[i] != c,
{
    let n = s.unicode_len();
    let mut i = from;
    while i < n
        invariant
            n == s@.len(),
            from <= i <= n,
            forall|k: int| from <= k < i ==> s@[k] != c,
        decreases n - i,
    {
        if s.get_char(i) == c {
            return i;
        }
        i += 1;
    }
    i
}

/// Reads one setting: its key and value, or the error of a setting without value.
fn read_setting(part: &str) -> (r: Result<(String, String), String>)
    ensures
        match r {
            Ok((k, v)) => setting(part@) == (k@, Some(v@)),
            Err(e) => setting(part@).1 is None && e@ == part@ + " has no next!"@,
        },
{
    let n = part.unicode_len();
    let j = find_char(part, '=', 0);
    if j == n {
        proof {
            lemma_split_no_sep(part@, '=');
        }
        return Err(String::from_str(part).concat(" has no next!"));
    }
    let k = find_char(part, '=', j + 1);
    let key = part.substring_char(0, j);
    let value = part.substring_char(j + 1, k);
    proof {
        let s = part@;
        let a = s.subrange(0, j as int);
        let rest = s.subrange(j + 1, n as int);
        assert(s =~= a.push('=') + rest);
        lemma_split_concat(a, rest, '=');
        lemma_split_no_sep(a, '=');
        let v = rest.subrange(0, k - j - 1);
        if k == n {
            assert(rest =~= v);
            lemma_split_no_sep(rest, '=');
        } else {
            let tail = rest.subrange(k - j, rest.len() as int);
            assert(rest =~= v.push('=') + tail);
            lemma_split_concat(v, tail, '=');
            lemma_split_no_sep(v, '=');
        }
        assert(value@ =~= v);
    }
    Ok((String::from_str(key), String::from_str(value)))
}

/// The value of `key` in `m`, if it holds one.
pub open spec fn value_of(m: Map<Seq<char>, Seq<char>>, key: Seq<char>) -> Option<Seq<char>> {
    if m.contains_key(key) {
        Some(m[key])
    } else {
        None
    }
}

/// Parses a `;`-separated list of `key=value` settings whose keys must be
/// among `keys`: for each key the last value given to it, or the error
/// message of the first faulty setting.
pub fn parse_settings(text: &str, keys: &Vec<String>) -> (r: Result<Vec<Option<String>>, String>)
    ensures
        match config_of(text@, keys@.map_values(|k: String| k@)) {
            Ok(m) => r is Ok && r->Ok_0@.len() == keys@.len() && forall|i: int|
                0 <= i < keys@.len() ==> (match #[trigger] r->Ok_0@[i] {
                    Some(v) => value_of(m, keys@[i]@) == Some(v@),
                    None => value_of(m, keys@[i]@) is None,
                }),
            Err(e) => r is Err && r->Err_0@ == e,
        },
{
    let ghost ks = keys@.map_values(|k: String| k@);
    let n = text.unicode_len();
    let mut values: Vec<Option<String>> = Vec::new();
    let mut t: usize = 0;
    while t < keys.len()
        invariant
            t <= keys@.len(),
            values@.len() == t,
            forall|i: int| 0 <= i < t ==> #[trigger] values@[i] is None,
        decreases keys@.len() - t,
    {
        values.push(None);
        t += 1;
    }
    let ghost mut done: Seq<Seq<char>> = seq![];
    let mut start: usize = 0;
    assert(text@.subrange(0, n as int) =~= text@);
    assert(done + split_on(text@, ';') =~= split_on(text@, ';'));
    loop
        invariant
            n == text@.len(),
            start <= n,
            ks == keys@.map_values(|k: String| k@),
            split_on(text@, ';') == done + split_on(text@.subrange(start as int, n as int), ';'),
            settings_of(done, ks) is Ok,
            values@.len() == keys@.len(),
            forall|i: int|
                0 <= i < keys@.len() ==> (match #[trigger] values@[i] {
                    Some(v) => value_of(settings_of(done, ks)->Ok_0, keys@[i]@) == Some(v@),
                    None => value_of(settings_of(done, ks)->Ok_0, keys@[i]@) is None,
                }),
        decreases n - start,
    {
        let k = find_char(text, ';', start);
        let part = text.substring_char(start, k);
        let ghost rest = text@.subrange(start as int, n as int);
        proof {
            lemma_split_no_sep(part@, ';');
            if k < n {
                let tail = text@.subrange(k + 1, n as int);
                assert(rest =~= part@.push(';') + tail);
                lemma_split_concat(part@, tail, ';');
            } else {
                assert(rest =~= part@);
            }
        }
        let ghost done2 = done.push(part@);
        assert(done2.drop_last() =~= done);
        assert(done2.last() == part@);
        match read_setting(part) {
            Err(e) => {
                proof {
                    if k < n {
                        let tail = text@.subrange(k + 1, n as int);
                        assert(split_on(text@, ';') =~= done2 + split_on(tail, ';'));
                        lemma_settings_err_extends(done2, split_on(tail, ';'), ks);
                    } else {
                        assert(split_on(text@, ';') =~= done2);
                    }
                }
                return Err(e);
            },
            Ok((key, value)) => {
                let mut found = false;
                let mut i: usize = 0;
                while i < keys.len()
                    invariant
                        i <= keys@.len(),
                        ks == keys@.map_values(|k: String| k@),
                        found == exists|j: int| 0 <= j < i && keys@[j]@ == key@,
                    decreases keys@.len() - i,
                {
                    if keys[i] == key {
                        found = true;
                    }
                    i += 1;
                }
                if !found {
                    proof {
                        assert(!ks.contains(key@)) by {
                            if ks.contains(key@) {
                                let j = choose|j: int| 0 <= j < ks.len() && ks[j] == key@;
                                assert(keys@[j]@ == key@);
                            }
                        }
                        if k < n {
                            let tail = text@.subrange(k + 1, n as int);
                            assert(split_on(text@, ';') =~= done2 + split_on(tail, ';'));
                            lemma_settings_err_extends(done2, split_on(tail, ';'), ks);
                        } else {
                            assert(split_on(text@, ';') =~= done2);
                        }
                    }
                    return Err(String::from_str("Not handling key ").concat(key.as_str()));
                }
                proof {
                    let j = choose|j: int| 0 <= j < i && keys@[j]@ == key@;
                    assert(ks[j] == key@);
                    assert(ks.contains(key@));
                }
                let ghost before = settings_of(done, ks)->Ok_0;
                let mut i: usize = 0;
                while i < keys.len()
                    invariant
                        i <= keys@.len(),
                        values@.len() == keys@.len(),
                        forall|j: int|
                            0 <= j < i ==> (match #[trigger] values@[j] {
                                Some(v) => value_of(before.insert(key@, value@), keys@[j]@) == Some(v@),
                                None => value_of(before.insert(key@, value@), keys@[j]@) is None,
                            }),
                        forall|j: int|
                            i <= j < keys@.len() ==> (match #[trigger] values@[j] {
                                Some(v) => value_of(before, keys@[j]@) == Some(v@),
                                None => value_of(before, keys@[j]@) is None,
                            }),
                    decreases keys@.len() - i,
                {
                    if keys[i] == key {
                        values.set(i, Some(value.clone()));
                    }
                    i += 1;
                }
                proof {
                    done = done2;
                }
                if k == n {
                    proof {
                        assert(split_on(text@, ';') =~= done);
                    }
                    return Ok(values);
                }
                proof {
                    let tail = text@.subrange(k + 1, n as int);
                    assert(split_on(text@, ';') =~= done + split_on(tail, ';'));
                }
                start = k + 1;
            },
        }
    }
}

/// The value of `key` in `m`, or the empty text.
pub open spec fn value_or_empty(m: Map<Seq<char>, Seq<char>>, key: Seq<char>) -> Seq<char> {
    if m.contains_key(key) {
        m[key]
    } else {
        seq![]
    }
}

/// The keys of the sensor board settings.
pub open spec fn embedded_keys() -> Seq<Seq<char>> {
    seq!["hostname"@, "port"@]
}

/// The keys of a computer's settings.
pub open spec fn pc_keys() -> Seq<Seq<char>> {
    seq!["user"@, "ip"@, "mac"@]
}

fn take_value(values: &Vec<Option<String>>, i: usize) -> (r: String)
    requires
        i < values@.len(),
    ensures
        match values@[i as int] {
            Some(v) => r@ == v@,
            None => r@ == Seq::<char>::empty(),
        },
{
    match &values[i] {
        Some(v) => v.clone(),
        None => String::new(),
    }
}

/// Parses the sensor board settings (`hostname=...;port=...`): keys missing
/// from the text are left empty; the error is the message of the first
/// faulty setting.
pub fn parse_embedded(text: &str) -> (r: Result<Embedded, String>)
    ensures
        match config_of(text@, embedded_keys()) {
            Ok(m) => r is Ok && r->Ok_0.hostname@ == value_or_empty(m, "hostname"@)
                && r->Ok_0.port@ == value_or_empty(m, "port"@),
            Err(e) => r is Err && r->Err_0@ == e,
        },
{
    let keys = vec![String::from_str("hostname"), String::from_str("port")];
    assert(keys@.map_values(|k: String| k@) =~= embedded_keys());
    match parse_settings(text, &keys) {
        Err(e) => Err(e),
        Ok(values) => {
            // The contract of `parse_settings` speaks of each entry through a
            // quantifier triggered on `values@[i]`; naming the entries read
            // below instantiates it for them.
            assert(values@[0] == values@[0] && values@[1] == values@[1]);
            let hostname = take_value(&values, 0);
            let port = take_value(&values, 1);
            Ok(Embedded { hostname, port })
        },
    }
}

/// Parses a computer's settings (`user=...;ip=...;mac=...`): user and ip
/// missing from the text are left empty, a missing mac is `None`; the error
/// is the message of the first faulty setting.
pub fn parse_pc(text: &str) -> (r: Result<Pc, String>)
    ensures
        match config_of(text@, pc_keys()) {
            Ok(m) => r is Ok && r->Ok_0.user@ == value_or_empty(m, "user"@)
                && r->Ok_0.ip@ == value_or_empty(m, "ip"@)
                && match r->Ok_0.mac {
                    Some(mac) => value_of(m, "mac"@) == Some(mac@),
                    None => value_of(m, "mac"@) is None,
                },
            Err(e) => r is Err && r->Err_0@ == e,
        },
{
    let keys = vec![String::from_str("user"), String::from_str("ip"), String::from_str("mac")];
    assert(keys@.map_values(|k: String| k@) =~= pc_keys());
    match parse_settings(text, &keys) {
        Err(e) => Err(e),
        Ok(values) => {
            // The contract of `parse_settings` speaks of each entry through a
            // quantifier triggered on `values@[i]`; naming the entries read
            // below instantiates it for them.
            assert(values@[0] == values@[0] && values@[1] == values@[1] && values@[2] == values@[2]);
            let user = take_value(&values, 0);
            let ip = take_value(&values, 1);
            let mac = match &values[2] {
                Some(v) => Some(v.clone()),
                None => None,
            };
            Ok(Pc { user, ip, mac })
        },
    }
}

} // verus!
