//! Manifest endpoint logic: pick the manifest's format from the content
//! type, rewrite JSON and YAML bodies as TOML text, validate the document,
//! and evaluate it — the magic keyword must be present and the gift orders
//! are formatted one per line.

use vstd::prelude::*;

use crate::text::{chars_to_string, dec_int, push_i64_dec, push_str_chars};

verus! {

/// Why a manifest is rejected.
#[derive(Clone, Copy, Debug, PartialEq, Eq, Structural)]
pub enum ManifestError {
    /// The body was not valid TOML.
    InvalidToml,
    /// The body was not valid JSON.
    InvalidJson,
    /// The body was not valid YAML.
    InvalidYaml,
    /// The content type names no supported manifest format.
    Unsupported,
    /// The TOML was not a valid Cargo manifest.
    InvalidCargoToml,
    /// The magic keyword was not provided.
    NotChristmas,
    /// No valid orders were found.
    NoOrders,
}

#[verifier::external_type_specification]
#[verifier::external_body]
pub struct ExTomlValue(toml::Value);

/// Whether a text parses as a TOML document.
pub uninterp spec fn toml_parses(s: Seq<char>) -> bool;

/// The TOML text a JSON document transcodes to, if it does.
pub uninterp spec fn json_toml_of(s: Seq<char>) -> Option<Seq<char>>;

/// The TOML text a YAML document transcodes to, if it does.
pub uninterp spec fn yaml_toml_of(s: Seq<char>) -> Option<Seq<char>>;

/// Whether a TOML text is a valid Cargo manifest.
pub uninterp spec fn cargo_manifest_valid(s: Seq<char>) -> bool;

/// Relies on `toml::from_str` for `toml::Value`: parses a TOML document;
/// success depends on the text alone.
#[verifier::external_body]
fn toml_parse(s: &str) -> (r: Option<toml::Value>)
    ensures
        r is Some <==> toml_parses(s@),
{
    toml::from_str::<toml::Value>(s).ok()
}

/// Relies on `serde_json::Deserializer::from_str`, `toml::Serializer` and
/// `serde_transcode::transcode`: rewrites a JSON document as TOML text; the
/// outcome depends on the JSON text alone.
#[verifier::external_body]
fn json_to_toml(s: &str) -> (r: Option<String>)
    ensures
        match r {
            Some(t) => json_toml_of(s@) == Some(t@),
            None => json_toml_of(s@) is None,
        },
{
    let mut deserializer = serde_json::Deserializer::from_str(s);
    let mut toml_string = String::new();
    let serializer = toml::Serializer::new(&mut toml_string);
    match serde_transcode::transcode(&mut deserializer, serializer) {
        Ok(()) => Some(toml_string),
        Err(_) => None,
    }
}

/// Relies on `serde_yaml::Deserializer::from_str`, `toml::Serializer` and
/// `serde_transcode::transcode`: rewrites a YAML document as TOML text; the
/// outcome depends on the YAML text alone.
#[verifier::external_body]
fn yaml_to_toml(s: &str) -> (r: Option<String>)
    ensures
        match r {
            Some(t) => yaml_toml_of(s@) == Some(t@),
            None => yaml_toml_of(s@) is None,
        },
{
    let deserializer = serde_yaml::Deserializer::from_str(s);
    let mut toml_string = String::new();
    let serializer = toml::Serializer::new(&mut toml_string);
    match serde_transcode::transcode(deserializer, serializer) {
        Ok(()) => Some(toml_string),
        Err(_) => None,
    }
}

/// Relies on `cargo_manifest::Manifest::from_slice`: whether a TOML text is
/// a valid Cargo manifest depends on the text alone.
#[verifier::external_body]
fn cargo_manifest_ok(s: &str) -> (r: bool)
    ensures
        r == cargo_manifest_valid(s@),
{
    cargo_manifest::Manifest::from_slice(s.as_bytes()).is_ok()
}

/// Relies on `toml::Value::get`: the value under a key of a TOML table, if
/// any.
#[verifier::external_body]
fn value_get<'a>(v: &'a toml::Value, key: &str) -> Option<&'a toml::Value> {
    v.get(key)
}

/// Relies on `toml::Value::as_array`: the elements of a TOML array value.
#[verifier::external_body]
fn value_as_array<'a>(v: &'a toml::Value) -> Option<&'a Vec<toml::Value>> {
    v.as_array()
}

/// Relies on `toml::Value::as_str`: the text of a TOML string value.
#[verifier::external_body]
fn value_as_str<'a>(v: &'a toml::Value) -> Option<&'a str> {
    v.as_str()
}

/// Relies on `toml::Value::as_integer`: the value of a TOML integer.
#[verifier::external_body]
fn value_as_integer(v: &toml::Value) -> Option<i64> {
    v.as_integer()
}

/// One gift order as found in the manifest: its item text and quantity,
/// each only if present with the right type.
pub struct RawOrder {
    pub item: Option<String>,
    pub quantity: Option<i64>,
}

impl RawOrder {
    /// The order reduced to plain values.
    pub open spec fn model(self) -> (Option<Seq<char>>, Option<i64>) {
        (
            match self.item {
                Some(s) => Some(s@),
                None => None,
            },
            self.quantity,
        )
    }
}

/// The keyword list reduced to plain values.
pub open spec fn keywords_model(ks: Seq<Option<String>>) -> Seq<Option<Seq<char>>> {
    ks.map(
        |i: int, o: Option<String>|
            match o {
                Some(s) => Some(s@),
                None => None,
            },
    )
}

/// The order list reduced to plain values.
pub open spec fn orders_model(os: Seq<RawOrder>) -> Seq<(Option<Seq<char>>, Option<i64>)> {
    os.map(|i: int, o: RawOrder| o.model())
}

/// The magic keyword a manifest must carry.
pub open spec fn magic_keyword() -> Seq<char> {
    "Christmas 2024"@
}

/// Whether the keyword list carries the magic keyword.
pub open spec fn has_magic_keyword(l: Seq<Option<Seq<char>>>) -> bool {
    exists|i: int| 0 <= i < l.len() && #[trigger] l[i] == Some(magic_keyword())
}

/// The line an order is shown as: the item, a colon and a space, and the
/// quantity in decimal.
pub open spec fn order_line(item: Seq<char>, quantity: i64) -> Seq<char> {
    item + seq![':', ' '] + dec_int(quantity as int)
}

/// The lines of the first `n` orders: one line per order that has both an
/// item and a quantity, in order; the rest contribute nothing.
pub open spec fn order_lines_upto(
    list: Seq<(Option<Seq<char>>, Option<i64>)>,
    n: int,
) -> Seq<Seq<char>>
    decreases n,
{
    if n <= 0 {
        Seq::empty()
    } else {
        order_lines_upto(list, n - 1) + (match (list[n - 1].0, list[n - 1].1) {
            (Some(item), Some(quantity)) => seq![order_line(item, quantity)],
            _ => Seq::empty(),
        })
    }
}

/// The lines joined with newlines, from the `i`-th on.
pub open spec fn join_from(lines: Seq<Seq<char>>, i: int) -> Seq<char>
    decreases lines.len() - i,
{
    if i < 0 || i >= lines.len() {
        Seq::empty()
    } else if i == lines.len() - 1 {
        lines[i]
    } else {
        lines[i] + seq!['\n'] + join_from(lines, i + 1)
    }
}

/// Appending a line to a joined text: an empty list starts with the line
/// alone, a non-empty one gains a newline and the line.
proof fn lemma_join_snoc(lines: Seq<Seq<char>>, x: Seq<char>, i: int)
    requires
        0 <= i <= lines.len(),
    ensures
        join_from(lines.push(x), i) == if i == lines.len() {
            x
        } else {
            join_from(lines, i) + seq!['\n'] + x
        },
    decreases lines.len() - i,
{
    if i == lines.len() {
        assert(lines.push(x)[i] == x);
    } else {
        lemma_join_snoc(lines, x, i + 1);
        assert(lines.push(x)[i] == lines[i]);
        if i == lines.len() - 1 {
        } else {
            assert((lines[i] + seq!['\n'] + join_from(lines, i + 1)) + seq!['\n'] + x =~= lines[i]
                + seq!['\n'] + (join_from(lines, i + 1) + seq!['\n'] + x));
        }
    }
}

/// What a validated manifest evaluates to: the magic keyword must be among
/// the keywords, there must be an order list, and the orders with both an
/// item and a quantity — of which there must be at least one — are shown one
/// per line.
pub open spec fn evaluate_spec(
    keywords: Option<Seq<Option<Seq<char>>>>,
    orders: Option<Seq<(Option<Seq<char>>, Option<i64>)>>,
) -> Result<Seq<char>, ManifestError> {
    match keywords {
        None => Err(ManifestError::NotChristmas),
        Some(kl) => if !has_magic_keyword(kl) {
            Err(ManifestError::NotChristmas)
        } else {
            match orders {
                None => Err(ManifestError::NoOrders),
                Some(ol) => {
                    let lines = order_lines_upto(ol, ol.len() as int);
                    if lines.len() == 0 {
                        Err(ManifestError::NoOrders)
                    } else {
                        Ok(join_from(lines, 0))
                    }
                },
            }
        },
    }
}

/// Evaluate a manifest's extracted keywords and orders: reject it without
/// the magic keyword, or without any order carrying both an item and a
/// quantity; otherwise show those orders one per line.
pub fn evaluate_manifest(keywords: Option<Vec<Option<String>>>, orders: Option<Vec<RawOrder>>) -> (r:
    Result<String, ManifestError>)
    ensures
        ({
            let ks = match keywords {
                Some(k) => Some(keywords_model(k@)),
                None => None,
            };
            let os = match orders {
                Some(o) => Some(orders_model(o@)),
                None => None,
            };
            match r {
                Ok(s) => evaluate_spec(ks, os) == Ok::<Seq<char>, ManifestError>(s@),
                Err(e) => evaluate_spec(ks, os) == Err::<Seq<char>, ManifestError>(e),
            }
        }),
{
    let ks = match keywords {
        Some(k) => k,
        None => {
            return Err(ManifestError::NotChristmas);
        }
    };
    let ghost kl = keywords_model(ks@);
    let magic = "Christmas 2024".to_owned();
    let mut found = false;
    let mut i: usize = 0;
    while i < ks.len()
        invariant
            i <= ks@.len(),
            kl == keywords_model(ks@),
            kl.len() == ks@.len(),
            magic@ == magic_keyword(),
            found <==> exists|j: int| 0 <= j < i && #[trigger] kl[j] == Some(magic_keyword()),
        decreases ks@.len() - i,
    {
        match &ks[i] {
            Some(s) => {
                if *s == magic {
                    proof {
                        assert(kl[i as int] == Some(magic_keyword()));
                    }
                    found = true;
                }
            }
            None => {}
        }
        i = i + 1;
    }
    if !found {
        assert(!has_magic_keyword(kl));
        return Err(ManifestError::NotChristmas);
    }
    let os = match orders {
        Some(o) => o,
        None => {
            return Err(ManifestError::NoOrders);
        }
    };
    let ghost ol = orders_model(os@);
    let mut out: Vec<char> = Vec::new();
    let mut count: usize = 0;
    let mut k: usize = 0;
    while k < os.len()
        invariant
            k <= os@.len(),
            ol == orders_model(os@),
            ol.len() == os@.len(),
            count as int == order_lines_upto(ol, k as int).len(),
            count <= k,
            out@ == join_from(order_lines_upto(ol, k as int), 0),
        decreases os@.len() - k,
    {
        let ghost lines0 = order_lines_upto(ol, k as int);
        let has_item = os[k].item.is_some();
        let has_quantity = os[k].quantity.is_some();
        if has_item && has_quantity {
            let item = match &os[k].item {
                Some(s) => s.clone(),
                None => String::new(),
            };
            let quantity = match os[k].quantity {
                Some(q) => q,
                None => 0,
            };
            proof {
                assert(ol[k as int] == (Some(item@), Some(quantity)));
            }
            if count > 0 {
                out.push('\n');
            }
            let ghost before_line = out@;
            push_str_chars(&mut out, item.as_str());
            out.push(':');
            out.push(' ');
            push_i64_dec(&mut out, quantity);
            proof {
                assert(out@ =~= before_line + order_line(item@, quantity));
                lemma_join_snoc(lines0, order_line(item@, quantity), 0);
                assert(order_lines_upto(ol, k as int + 1) =~= lines0.push(
                    order_line(item@, quantity),
                ));
                if count == 0 {
                    assert(lines0.len() == 0);
                    assert(out@ =~= join_from(order_lines_upto(ol, k as int + 1), 0));
                } else {
                    assert(out@ =~= join_from(order_lines_upto(ol, k as int + 1), 0));
                }
            }
            count = count + 1;
        } else {
            proof {
                assert(match (ol[k as int].0, ol[k as int].1) {
                    (Some(_), Some(_)) => false,
                    _ => true,
                });
                assert(order_lines_upto(ol, k as int + 1) =~= lines0);
            }
        }
        k = k + 1;
    }
    if count == 0 {
        return Err(ManifestError::NoOrders);
    }
    Ok(chars_to_string(out))
}

/// The checks a manifest body must pass before evaluation, and the error the
/// first failing one yields: the content type must name a supported format,
/// a JSON or YAML body must transcode to TOML, the TOML must parse, and it
/// must be a valid Cargo manifest.
pub open spec fn manifest_checks(ct: Option<Seq<char>>, body: Seq<char>) -> Option<ManifestError> {
    match ct {
        None => Some(ManifestError::Unsupported),
        Some(c) => if c == "application/json"@ {
            match json_toml_of(body) {
                None => Some(ManifestError::InvalidJson),
                Some(t) => toml_checks(t),
            }
        } else if c == "application/yaml"@ {
            match yaml_toml_of(body) {
                None => Some(ManifestError::InvalidYaml),
                Some(t) => toml_checks(t),
            }
        } else if c == "application/toml"@ {
            toml_checks(body)
        } else {
            Some(ManifestError::Unsupported)
        },
    }
}

/// The checks of the TOML text itself.
pub open spec fn toml_checks(t: Seq<char>) -> Option<ManifestError> {
    if !toml_parses(t) {
        Some(ManifestError::InvalidToml)
    } else if !cargo_manifest_valid(t) {
        Some(ManifestError::InvalidCargoToml)
    } else {
        None
    }
}

/// The keyword list under `package.keywords`, each entry as its text if it
/// is a string.
fn extract_keywords(v: &toml::Value) -> Option<Vec<Option<String>>> {
    let package = match value_get(v, "package") {
        Some(p) => p,
        None => {
            return None;
        }
    };
    let kw = match value_get(package, "keywords") {
        Some(k) => k,
        None => {
            return None;
        }
    };
    let arr = match value_as_array(kw) {
        Some(a) => a,
        None => {
            return None;
        }
    };
    let mut out: Vec<Option<String>> = Vec::new();
    let mut i: usize = 0;
    while i < arr.len()
        decreases arr@.len() - i,
    {
        match value_as_str(&arr[i]) {
            Some(s) => out.push(Some(s.to_owned())),
            None => out.push(None),
        }
        i = i + 1;
    }
    Some(out)
}

/// The order list under `package.metadata.orders`, each entry's item and
/// quantity where present with the right type.
fn extract_orders(v: &toml::Value) -> Option<Vec<RawOrder>> {
    let package = match value_get(v, "package") {
        Some(p) => p,
        None => {
            return None;
        }
    };
    let metadata = match value_get(package, "metadata") {
        Some(m) => m,
        None => {
            return None;
        }
    };
    let orders = match value_get(metadata, "orders") {
        Some(o) => o,
        None => {
            return None;
        }
    };
    let arr = match value_as_array(orders) {
        Some(a) => a,
        None => {
            return None;
        }
    };
    let mut out: Vec<RawOrder> = Vec::new();
    let mut i: usize = 0;
    while i < arr.len()
        decreases arr@.len() - i,
    {
        let item = match value_get(&arr[i], "item") {
            Some(it) => match value_as_str(it) {
                Some(s) => Some(s.to_owned()),
                None => None,
            },
            None => None,
        };
        let quantity = match value_get(&arr[i], "quantity") {
            Some(q) => value_as_integer(q),
            None => None,
        };
        out.push(RawOrder { item, quantity });
        i = i + 1;
    }
    Some(out)
}

/// Handle a manifest request: pick the format from the content type, obtain
/// TOML text, validate it, and evaluate the manifest. Every rejection up to
/// validation is pinned exactly; past those checks the result is the evaluation
/// of the extracted keywords and orders.
pub fn manifest(content_type: Option<&String>, body: String) -> (r: Result<String, ManifestError>)
    ensures
        ({
            let ct = match content_type {
                Some(c) => Some(c@),
                None => None,
            };
            match manifest_checks(ct, body@) {
                Some(e) => r == Err::<String, ManifestError>(e),
                None => r is Ok || r == Err::<String, ManifestError>(ManifestError::NotChristmas)
                    || r == Err::<String, ManifestError>(ManifestError::NoOrders),
            }
        }),
{
    let ct = match content_type {
        Some(c) => c,
        None => {
            return Err(ManifestError::Unsupported);
        }
    };
    let json_ct = "application/json".to_owned();
    let yaml_ct = "application/yaml".to_owned();
    let toml_ct = "application/toml".to_owned();
    let toml_src: String = if *ct == json_ct {
        match json_to_toml(body.as_str()) {
            Some(t) => t,
            None => {
                return Err(ManifestError::InvalidJson);
            }
        }
    } else if *ct == yaml_ct {
        match yaml_to_toml(body.as_str()) {
            Some(t) => t,
            None => {
                return Err(ManifestError::InvalidYaml);
            }
        }
    } else if *ct == toml_ct {
        body
    } else {
        return Err(ManifestError::Unsupported);
    };
    let parsed = match toml_parse(toml_src.as_str()) {
        Some(v) => v,
        None => {
            return Err(ManifestError::InvalidToml);
        }
    };
    if !cargo_manifest_ok(toml_src.as_str()) {
        return Err(ManifestError::InvalidCargoToml);
    }
    let keywords = extract_keywords(&parsed);
    let orders = extract_orders(&parsed);
    evaluate_manifest(keywords, orders)
}

} // verus!
