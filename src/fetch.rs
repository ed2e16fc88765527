use vstd::prelude::*;
use vstd::string::StrSliceExecFns;

verus! {

/// The request methods that guest `fetch` calls may name: the standard
/// ones, and any other valid token as an extension method.
#[derive(Debug, Clone, PartialEq, Eq)]
pub enum HttpMethod {
    Get,
    Head,
    Post,
    Put,
    Delete,
    Connect,
    Options,
    Trace,
    Patch,
    Extension(String),
}

/// A guest `fetch` call, decoded.
#[derive(Debug, Clone)]
pub struct FetchArgs {
    pub method: HttpMethod,
    pub url: String,
}

/// A guest argument, as far as decoding reads it.
pub enum GuestValue {
    /// A string, with its text.
    Str(String),
    /// An object, with the string form of its `method` property, if it has one.
    Object(Option<String>),
    /// Anything else.
    Other,
}

/// A character that may stand in an HTTP token: a letter, a digit, or one of
/// ``!#$%&'*+-.^_`|~``.
pub open spec fn is_token_char(c: char) -> bool {
    let u = c as u32;
    ||| 0x30 <= u <= 0x39
    ||| 0x41 <= u <= 0x5a
    ||| 0x61 <= u <= 0x7a
    ||| u == 0x21 || u == 0x23 || u == 0x24 || u == 0x25 || u == 0x26 || u == 0x27
    ||| u == 0x2a || u == 0x2b || u == 0x2d || u == 0x2e
    ||| u == 0x5e || u == 0x5f || u == 0x60 || u == 0x7c || u == 0x7e
}

/// A valid method name: a non-empty HTTP token.
pub open spec fn is_method_token(name: Seq<char>) -> bool {
    name.len() > 0 && forall|i: int| 0 <= i < name.len() ==> is_token_char(#[trigger] name[i])
}

/// The standard method spelled exactly `name`, if there is one.
pub open spec fn standard_method(name: Seq<char>) -> Option<HttpMethod> {
    if name == "GET"@ {
        Some(HttpMethod::Get)
    } else if name == "HEAD"@ {
        Some(HttpMethod::Head)
    } else if name == "POST"@ {
        Some(HttpMethod::Post)
    } else if name == "PUT"@ {
        Some(HttpMethod::Put)
    } else if name == "DELETE"@ {
        Some(HttpMethod::Delete)
    } else if name == "CONNECT"@ {
        Some(HttpMethod::Connect)
    } else if name == "OPTIONS"@ {
        Some(HttpMethod::Options)
    } else if name == "TRACE"@ {
        Some(HttpMethod::Trace)
    } else if name == "PATCH"@ {
        Some(HttpMethod::Patch)
    } else {
        None
    }
}

/// `method` is the method that the valid name `name` stands for: the
/// standard one of that spelling, or else an extension method of that name.
pub open spec fn names_method(method: HttpMethod, name: Seq<char>) -> bool {
    match standard_method(name) {
        Some(m) => method == m,
        None => method matches HttpMethod::Extension(e) && e@ == name,
    }
}

/// The method name that an options object gives: its `method`, or `GET`.
pub open spec fn method_text(name: Option<String>) -> Seq<char> {
    match name {
        Some(t) => t@,
        None => "GET"@,
    }
}

/// Whether `c` may stand in an HTTP token.
pub fn is_token_char_exec(c: char) -> (r: bool)
    ensures
        r == is_token_char(c),
{
    let u = c as u32;
    (0x30 <= u && u <= 0x39) || (0x41 <= u && u <= 0x5a) || (0x61 <= u && u <= 0x7a) || u == 0x21
        || u == 0x23 || u == 0x24 || u == 0x25 || u == 0x26 || u == 0x27 || u == 0x2a || u == 0x2b
        || u == 0x2d || u == 0x2e || u == 0x5e || u == 0x5f || u == 0x60 || u == 0x7c || u == 0x7e
}

/// Whether `name` is a valid method name.
pub fn is_method_token_exec(name: &str) -> (r: bool)
    ensures
        r == is_method_token(name@),
{
    let n = name.unicode_len();
    if n == 0 {
        return false;
    }
    let mut i: usize = 0;
    while i < n
        invariant
            n == name@.len(),
            0 <= i <= n,
            forall|j: int| 0 <= j < i ==> is_token_char(#[trigger] name@[j]),
        decreases n - i,
    {
        if !is_token_char_exec(name.get_char(i)) {
            return false;
        }
        i = i + 1;
    }
    true
}

/// The method that the name `name` stands for, or `Err` if it is not a
/// valid method name.
pub fn method_from_name(name: &str) -> (r: Result<HttpMethod, ()>)
    ensures
        !is_method_token(name@) ==> r is Err,
        is_method_token(name@) ==> r is Ok && names_method(r->Ok_0, name@),
{
    if !is_method_token_exec(name) {
        return Err(());
    }
    let n = name.to_owned();
    let m = if n == "GET".to_owned() {
        HttpMethod::Get
    } else if n == "HEAD".to_owned() {
        HttpMethod::Head
    } else if n == "POST".to_owned() {
        HttpMethod::Post
    } else if n == "PUT".to_owned() {
        HttpMethod::Put
    } else if n == "DELETE".to_owned() {
        HttpMethod::Delete
    } else if n == "CONNECT".to_owned() {
        HttpMethod::Connect
    } else if n == "OPTIONS".to_owned() {
        HttpMethod::Options
    } else if n == "TRACE".to_owned() {
        HttpMethod::Trace
    } else if n == "PATCH".to_owned() {
        HttpMethod::Patch
    } else {
        HttpMethod::Extension(n)
    };
    Ok(m)
}

/// The URL, which must be the text of a string.
pub fn get_url(url: &GuestValue) -> (r: Result<String, String>)
    ensures
        url is Str ==> r is Ok && r->Ok_0@ == url->Str_0@,
        !(url is Str) ==> r is Err && r->Err_0@ == "URL required as first argument"@,
{
    match url {
        GuestValue::Str(s) => Ok(s.clone()),
        _ => Err("URL required as first argument".to_owned()),
    }
}

/// Reads the options object that may follow the URL into `rest`: its
/// `method`, `GET` if it has none, must be a valid method name.
pub fn decode_argarray(rest: FetchArgs, arg: &GuestValue) -> (r: Result<FetchArgs, String>)
    ensures
        arg is Object && is_method_token(method_text(arg->Object_0)) ==> r is Ok && r->Ok_0.url
            == rest.url && names_method(r->Ok_0.method, method_text(arg->Object_0)),
        arg is Object && !is_method_token(method_text(arg->Object_0)) ==> r is Err && r->Err_0@
            == "Invalid Method"@,
        !(arg is Object) ==> r is Err && r->Err_0@ == "Expected Object"@,
{
    match arg {
        GuestValue::Object(method) => {
            let parsed = match method {
                Some(name) => method_from_name(name.as_str()),
                None => method_from_name("GET"),
            };
            match parsed {
                Ok(method) => Ok(FetchArgs { method, url: rest.url }),
                Err(()) => Err("Invalid Method".to_owned()),
            }
        },
        _ => Err("Expected Object".to_owned()),
    }
}

/// Decodes the arguments of a guest `fetch(url, options)` call: a URL
/// string, then optionally an options object; the method is `GET` unless
/// the options name another.
pub fn decode_arguments(args: &Vec<GuestValue>) -> (r: Result<FetchArgs, String>)
    ensures
        args@.len() == 0 ==> r is Err && r->Err_0@ == "No args found"@,
        args@.len() > 0 && !(args@[0] is Str) ==> r is Err && r->Err_0@
            == "URL required as first argument"@,
        args@.len() > 1 && args@[0] is Str && !(args@[1] is Object) ==> r is Err && r->Err_0@
            == "Expected Object"@,
        args@.len() == 1 && args@[0] is Str ==> r is Ok && r->Ok_0.url@ == args@[0]->Str_0@
            && r->Ok_0.method == HttpMethod::Get,
        args@.len() > 1 && args@[0] is Str && args@[1] is Object && is_method_token(
            method_text(args@[1]->Object_0),
        ) ==> r is Ok && r->Ok_0.url@ == args@[0]->Str_0@ && names_method(
            r->Ok_0.method,
            method_text(args@[1]->Object_0),
        ),
        args@.len() > 1 && args@[0] is Str && args@[1] is Object && !is_method_token(
            method_text(args@[1]->Object_0),
        ) ==> r is Err && r->Err_0@ == "Invalid Method"@,
{
    if args.len() == 0 {
        return Err("No args found".to_owned());
    }
    let url = match get_url(&args[0]) {
        Ok(url) => url,
        Err(e) => return Err(e),
    };
    let default_args = FetchArgs { method: HttpMethod::Get, url };
    if args.len() > 1 {
        decode_argarray(default_args, &args[1])
    } else {
        Ok(default_args)
    }
}

} // verus!
