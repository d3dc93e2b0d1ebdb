use vstd::prelude::*;

verus! {

/// A lower-case ASCII letter.
pub open spec fn is_lower_letter(c: char) -> bool {
    'a' <= c && c <= 'z'
}

/// A character that may follow the first one in a resource name.
pub open spec fn is_name_char(c: char) -> bool {
    is_lower_letter(c) || ('0' <= c && c <= '9') || c == '_'
}

/// A resource name: a lower-case letter or an underscore, followed by
/// lower-case letters, digits and underscores. It serves as table name,
/// module name and identifier part.
pub open spec fn valid_name(n: Seq<char>) -> bool {
    &&& n.len() > 0
    &&& (is_lower_letter(n[0]) || n[0] == '_')
    &&& forall|i: int| 1 <= i < n.len() ==> is_name_char(#[trigger] n[i])
}

/// The upper-case form of an ASCII letter; every other character is kept.
pub open spec fn ascii_upper(c: char) -> char {
    if is_lower_letter(c) {
        ((c as u32 - 32) as u8) as char
    } else {
        c
    }
}

/// The upper-case form of an ASCII letter.
fn upper_ascii(c: char) -> (r: char)
    ensures
        r == ascii_upper(c),
{
    if 'a' <= c && c <= 'z' {
        ((c as u32 - 32) as u8) as char
    } else {
        c
    }
}

/// Relies on String::push: the character is appended at the end.
#[verifier::external_body]
fn push_char(s: &mut String, c: char)
    ensures
        final(s)@ == old(s)@.push(c),
{
    s.push(c)
}

/// The name of the row struct: the resource name with its first letter in
/// upper case.
pub open spec fn struct_name(n: Seq<char>) -> Seq<char> {
    seq![ascii_upper(n[0])] + n.subrange(1, n.len() as int)
}

pub open spec fn router_name(n: Seq<char>) -> Seq<char> {
    n + "_router"@
}

pub open spec fn get_all_name(n: Seq<char>) -> Seq<char> {
    "get_all_"@ + n
}

pub open spec fn get_one_name(n: Seq<char>) -> Seq<char> {
    "get_"@ + n + "_by_id"@
}

pub open spec fn create_name(n: Seq<char>) -> Seq<char> {
    "create_"@ + n
}

pub open spec fn update_name(n: Seq<char>) -> Seq<char> {
    "update_"@ + n + "_by_id"@
}

pub open spec fn delete_name(n: Seq<char>) -> Seq<char> {
    "delete_"@ + n + "_by_id"@
}

/// The five handler names of a resource, in operation order: list, get by id,
/// create, update by id, delete by id.
pub open spec fn handler_names(n: Seq<char>) -> Seq<Seq<char>> {
    seq![get_all_name(n), get_one_name(n), create_name(n), update_name(n), delete_name(n)]
}

pub open spec fn path_literal(n: Seq<char>) -> Seq<char> {
    "/"@ + n
}

/// Every identifier and path that the generated files use for one resource.
pub struct ResourceNames {
    pub struct_name: String,
    pub router_name: String,
    pub get_all_fn: String,
    pub get_one_fn: String,
    pub create_fn: String,
    pub update_fn: String,
    pub delete_fn: String,
    pub path_literal: String,
}

impl ResourceNames {
    /// The names agree with the naming rules for resource `n`.
    pub open spec fn names_of(&self, n: Seq<char>) -> bool {
        &&& self.struct_name@ == struct_name(n)
        &&& self.router_name@ == router_name(n)
        &&& self.get_all_fn@ == get_all_name(n)
        &&& self.get_one_fn@ == get_one_name(n)
        &&& self.create_fn@ == create_name(n)
        &&& self.update_fn@ == update_name(n)
        &&& self.delete_fn@ == delete_name(n)
        &&& self.path_literal@ == path_literal(n)
    }
}

/// `prefix`, then `n`, then `suffix`.
pub fn affix(prefix: &str, n: &str, suffix: &str) -> (r: String)
    ensures
        r@ == prefix@ + n@ + suffix@,
{
    let mut r = String::from_str(prefix);
    r.append(n);
    r.append(suffix);
    r
}

/// `prefix` followed by `n`.
pub fn prefixed(prefix: &str, n: &str) -> (r: String)
    ensures
        r@ == prefix@ + n@,
{
    let mut r = String::from_str(prefix);
    r.append(n);
    r
}

/// The row struct's name: `n` with its first letter upper-cased.
pub fn upper_first(n: &str) -> (r: String)
    requires
        valid_name(n@),
    ensures
        r@ == struct_name(n@),
{
    let len = n.unicode_len();
    let c = n.get_char(0);
    let u = upper_ascii(c);
    let mut r = String::new();
    push_char(&mut r, u);
    r.append(n.substring_char(1, len));
    assert(r@ =~= struct_name(n@));
    r
}

/// All names derived from a resource name.
pub fn derive_names(n: &str) -> (r: ResourceNames)
    requires
        valid_name(n@),
    ensures
        r.names_of(n@),
{
    let mut router = String::from_str(n);
    router.append("_router");
    ResourceNames {
        struct_name: upper_first(n),
        router_name: router,
        get_all_fn: prefixed("get_all_", n),
        get_one_fn: affix("get_", n, "_by_id"),
        create_fn: prefixed("create_", n),
        update_fn: affix("update_", n, "_by_id"),
        delete_fn: affix("delete_", n, "_by_id"),
        path_literal: prefixed("/", n),
    }
}

} // verus!
