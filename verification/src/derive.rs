//! The rules that turn a socket wrapper declaration into its trait
//! implementations: which declarations qualify, which socket type the
//! wrapper stands for, and which capabilities its attributes grant.
use vstd::prelude::*;

verus! {

/// The shape of a type named in a field: a path, by its segments, or any
/// other kind of type.
pub enum TypeShape {
    Path(Vec<String>),
    Other,
}

/// One field of a declaration: its name, if it has one, and its type.
pub struct FieldShape {
    pub ident: Option<String>,
    pub ty: TypeShape,
}

/// The fields of a struct declaration.
pub enum FieldsShape {
    Named(Vec<FieldShape>),
    Unnamed(Vec<FieldShape>),
    Unit,
}

/// What a declaration declares.
pub enum DataShape {
    Struct(FieldsShape),
    Enum,
    Union,
}

/// A declaration to derive a socket wrapper for: its name, the paths of its
/// attributes (each by its segments), and what it declares.
pub struct DeriveShape {
    pub name: String,
    pub attrs: Vec<Vec<String>>,
    pub data: DataShape,
}

/// The implementations a socket wrapper gets.
pub struct WrapperImpls {
    /// The wrapper's name.
    pub name: String,
    /// Whether it is the pair socket (else it is a non-pair socket).
    pub pair: bool,
    /// Whether it is the subscriber socket.
    pub sub: bool,
    /// The name of its socket type constant: the wrapper's name in upper case.
    pub kind: String,
    /// Whether it is a stream of messages.
    pub stream: bool,
    /// Whether it is a sink of messages.
    pub sink: bool,
}

/// `s` in lower case, as the standard library's `str::to_lowercase` gives it.
pub uninterp spec fn lowercase(s: Seq<char>) -> Seq<char>;

/// `s` in upper case, as the standard library's `str::to_uppercase` gives it.
pub uninterp spec fn uppercase(s: Seq<char>) -> Seq<char>;

/// Whether every character is ASCII.
pub open spec fn all_ascii(s: Seq<char>) -> bool {
    forall|i: int| 0 <= i < s.len() ==> (s[i] as u32) < 128
}

/// ASCII lower case of one character.
pub open spec fn ascii_lower(c: char) -> char {
    if 'A' <= c <= 'Z' {
        ((c as u32) + 32) as char
    } else {
        c
    }
}

/// ASCII upper case of one character.
pub open spec fn ascii_upper(c: char) -> char {
    if 'a' <= c <= 'z' {
        ((c as u32) - 32) as char
    } else {
        c
    }
}

/// Lower-case a string: calls `str::to_lowercase`. For ASCII text the
/// standard library's Unicode case mapping lower-cases exactly the letters
/// `A` to `Z`; other text is only tied to `lowercase`.
#[verifier::external_body]
fn to_lowercase(s: &str) -> (r: String)
    ensures
        r@ == lowercase(s@),
        all_ascii(s@) ==> r@ == s@.map_values(|c: char| ascii_lower(c)),
{
    s.to_lowercase()
}

/// Upper-case a string: calls `str::to_uppercase`. For ASCII text the
/// standard library's Unicode case mapping upper-cases exactly the letters
/// `a` to `z`; other text is only tied to `uppercase`.
#[verifier::external_body]
fn to_uppercase(s: &str) -> (r: String)
    ensures
        r@ == uppercase(s@),
        all_ascii(s@) ==> r@ == s@.map_values(|c: char| ascii_upper(c)),
{
    s.to_uppercase()
}

/// Whether an attribute path's last segment is `name`.
pub open spec fn path_ends_with(path: Seq<String>, name: Seq<char>) -> bool {
    path.len() > 0 && path.last()@ == name
}

/// Whether some attribute's path ends with `name`.
pub fn has_attr(attrs: &Vec<Vec<String>>, name: &str) -> (b: bool)
    ensures
        b == exists|i: int| 0 <= i < attrs@.len() && path_ends_with(#[trigger] attrs@[i]@, name@),
{
    let wanted = name.to_owned();
    let mut i: usize = 0;
    while i < attrs.len()
        invariant
            i <= attrs@.len(),
            wanted@ == name@,
            forall|j: int| 0 <= j < i ==> !path_ends_with(#[trigger] attrs@[j]@, name@),
        decreases attrs@.len() - i,
    {
        let path = &attrs[i];
        let n = path.len();
        if n > 0 {
            if path[n - 1] == wanted {
                assert(path_ends_with(attrs@[i as int]@, name@));
                return true;
            }
        }
        i = i + 1;
    }
    false
}

/// Whether a declaration is a struct with exactly one named field, called
/// `inner`, whose type is a path ending in `Socket`.
pub open spec fn spec_only_has_inner_socket(data: DataShape) -> bool {
    match data {
        DataShape::Struct(FieldsShape::Named(fields)) => {
            &&& fields@.len() == 1
            &&& fields@[0].ident matches Some(id) && id@ == "inner"@
            &&& fields@[0].ty matches TypeShape::Path(segs) && segs@.len() > 0 && segs@.last()@ == "Socket"@
        },
        _ => false,
    }
}

/// Whether a declaration is a struct with exactly one named field, called
/// `inner`, whose type is a path ending in `Socket`.
pub fn only_has_inner_socket(data: &DataShape) -> (b: bool)
    ensures
        b == spec_only_has_inner_socket(*data),
{
    let fields = match data {
        DataShape::Struct(FieldsShape::Named(fields)) => fields,
        _ => {
            return false;
        },
    };
    if fields.len() != 1 {
        return false;
    }
    let field = &fields[0];
    let inner = "inner".to_owned();
    let found = match &field.ident {
        Some(id) => *id == inner,
        None => false,
    };
    if !found {
        return false;
    }
    let segs = match &field.ty {
        TypeShape::Path(segs) => segs,
        TypeShape::Other => {
            return false;
        },
    };
    let n = segs.len();
    if n == 0 {
        return false;
    }
    let socket = "Socket".to_owned();
    segs[n - 1] == socket
}

/// The implementations a socket wrapper declaration gets. The declaration
/// must be a struct holding only `inner: Socket` (test it first with
/// `only_has_inner_socket`; a derive on anything else is refused by
/// panicking). The wrapper is the pair socket when its name in lower case is
/// `pair` (otherwise a non-pair socket), the subscriber socket when it is
/// `sub`, stands for the socket type named by its name in upper case, is a
/// stream when it carries a `stream` attribute and a sink when it carries
/// `sink`. For an ASCII name the cases are those of the letters `A`-`Z` and
/// `a`-`z`.
pub fn socket_derive(input: &DeriveShape) -> (w: WrapperImpls)
    requires
        spec_only_has_inner_socket(input.data),
    ensures
        w.name@ == input.name@,
        w.pair == (lowercase(input.name@) == "pair"@),
        w.sub == (lowercase(input.name@) == "sub"@),
        w.kind@ == uppercase(input.name@),
        all_ascii(input.name@) ==> w.pair == (input.name@.map_values(|c: char| ascii_lower(c)) == "pair"@),
        all_ascii(input.name@) ==> w.sub == (input.name@.map_values(|c: char| ascii_lower(c)) == "sub"@),
        all_ascii(input.name@) ==> w.kind@ == input.name@.map_values(|c: char| ascii_upper(c)),
        w.stream == exists|i: int| 0 <= i < input.attrs@.len() && path_ends_with(#[trigger] input.attrs@[i]@, "stream"@),
        w.sink == exists|i: int| 0 <= i < input.attrs@.len() && path_ends_with(#[trigger] input.attrs@[i]@, "sink"@),
{
    let name = input.name.clone();
    let lower = to_lowercase(name.as_str());
    let pair = lower == "pair".to_owned();
    let sub = lower == "sub".to_owned();
    let kind = to_uppercase(name.as_str());
    let stream = has_attr(&input.attrs, "stream");
    let sink = has_attr(&input.attrs, "sink");
    WrapperImpls { name, pair, sub, kind, stream, sink }
}

/// Which declarations qualify for a socket wrapper: a struct with exactly
/// one named field, called `inner`, whose type is a path of one or more
/// segments ending in `Socket`, however many segments lead up to it.
/// Enums, unions, tuple and unit structs, structs with other fields or
/// another field name, and fields of other types do not qualify.
pub proof fn law_inner_socket_qualifies(
    name: Option<String>,
    segs: Vec<String>,
    fields: Vec<FieldShape>,
    data: DataShape,
)
    requires
        fields@.len() == 1,
        fields@[0].ident == name,
        fields@[0].ty == TypeShape::Path(segs),
        data == DataShape::Struct(FieldsShape::Named(fields)),
    ensures
        spec_only_has_inner_socket(data) <==> (name matches Some(id) && id@ == "inner"@ && segs@.len() >= 1
            && segs@[segs@.len() - 1]@ == "Socket"@),
{
}

/// Declarations that are not a struct with named fields never qualify, nor
/// does one with other than exactly one field, nor one whose field's type
/// is not a path.
pub proof fn law_other_shapes_do_not_qualify(data: DataShape)
    ensures
        !(data matches DataShape::Struct(FieldsShape::Named(_))) ==> !spec_only_has_inner_socket(data),
        (data matches DataShape::Struct(FieldsShape::Named(fields)) && fields@.len() != 1)
            ==> !spec_only_has_inner_socket(data),
        (data matches DataShape::Struct(FieldsShape::Named(fields)) && fields@.len() == 1
            && fields@[0].ty is Other) ==> !spec_only_has_inner_socket(data),
{
}

} // verus!
