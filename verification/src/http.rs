//! The decision half of the HTTP tool: method parsing and naming. The
//! request plumbing lives outside the library.

use vstd::prelude::*;

use crate::text::{chars_string, str_chars, str_eq};
use crate::tools::{ToolError, ToolInput};

verus! {

/// An HTTP method the tool supports.
#[derive(Debug, Clone, Copy, PartialEq, Eq, Structural)]
pub enum HttpMethod {
    Get,
    Post,
    Put,
    Delete,
    Patch,
    Head,
    Options,
}

/// ASCII uppercase of one character.
pub open spec fn upper_ascii_char(c: char) -> char {
    if 97 <= c as u32 && c as u32 <= 122 {
        ((c as u32 - 32) as u8) as char
    } else {
        c
    }
}

/// ASCII uppercase of a text.
pub open spec fn upper_ascii(s: Seq<char>) -> Seq<char> {
    s.map(|_i: int, c: char| upper_ascii_char(c))
}

/// The method a name maps to, after ASCII case folding; an unknown name is
/// rejected with a message naming it.
pub open spec fn spec_parse_method(s: Seq<char>) -> Result<HttpMethod, Seq<char>> {
    let up = upper_ascii(s);
    if up == "GET"@ {
        Ok(HttpMethod::Get)
    } else if up == "POST"@ {
        Ok(HttpMethod::Post)
    } else if up == "PUT"@ {
        Ok(HttpMethod::Put)
    } else if up == "DELETE"@ {
        Ok(HttpMethod::Delete)
    } else if up == "PATCH"@ {
        Ok(HttpMethod::Patch)
    } else if up == "HEAD"@ {
        Ok(HttpMethod::Head)
    } else if up == "OPTIONS"@ {
        Ok(HttpMethod::Options)
    } else {
        Err("Unsupported HTTP method: "@ + s)
    }
}

fn upper_ascii_chars(v: &Vec<char>) -> (r: Vec<char>)
    ensures
        r@ == upper_ascii(v@),
{
    let mut r: Vec<char> = Vec::new();
    let mut i: usize = 0;
    while i < v.len()
        invariant
            i <= v.len(),
            r@ =~= upper_ascii(v@).take(i as int),
        decreases v.len() - i,
    {
        let c = v[i];
        let u = c as u32;
        if 97 <= u && u <= 122 {
            r.push(((u - 32) as u8) as char);
        } else {
            r.push(c);
        }
        i = i + 1;
        proof {
            assert(r@ =~= upper_ascii(v@).take(i as int));
        }
    }
    proof {
        assert(upper_ascii(v@).take(v@.len() as int) =~= upper_ascii(v@));
    }
    r
}

/// Reads a method name, case-insensitively.
pub fn parse_method(method: &str) -> (r: Result<HttpMethod, ToolError>)
    ensures
        match r {
            Ok(m) => spec_parse_method(method@) == Ok::<HttpMethod, Seq<char>>(m),
            Err(e) => (e matches ToolError::InvalidInput(msg) && spec_parse_method(method@)
                == Err::<HttpMethod, Seq<char>>(msg@)),
        },
{
    let up = chars_string(&upper_ascii_chars(&str_chars(method)));
    let s = up.as_str();
    if str_eq(s, "GET") {
        Ok(HttpMethod::Get)
    } else if str_eq(s, "POST") {
        Ok(HttpMethod::Post)
    } else if str_eq(s, "PUT") {
        Ok(HttpMethod::Put)
    } else if str_eq(s, "DELETE") {
        Ok(HttpMethod::Delete)
    } else if str_eq(s, "PATCH") {
        Ok(HttpMethod::Patch)
    } else if str_eq(s, "HEAD") {
        Ok(HttpMethod::Head)
    } else if str_eq(s, "OPTIONS") {
        Ok(HttpMethod::Options)
    } else {
        let mut m = String::from_str("Unsupported HTTP method: ");
        m.append(method);
        Err(ToolError::InvalidInput(m))
    }
}

/// Reads the decision half of a network-tool request out of its input: the
/// `method` and `url` fields must be present and the method must be one the
/// tool supports. The request itself is a collaborator's job.
pub fn prepare_http_request(input: &ToolInput) -> (r: Result<(HttpMethod, String), ToolError>)
    ensures
        ({
            let method = input.spec_get_string("method"@);
            let url = input.spec_get_string("url"@);
            match method {
                None => r matches Err(ToolError::InvalidInput(m)) && m@
                    == "Missing 'method' field"@,
                Some(method_text) => match url {
                    None => r matches Err(ToolError::InvalidInput(m)) && m@
                        == "Missing 'url' field"@,
                    Some(u) => match spec_parse_method(method_text) {
                        Ok(m) => r matches Ok(p) && p.0 == m && p.1@ == u,
                        Err(e) => r matches Err(ToolError::InvalidInput(msg)) && msg@ == e,
                    },
                },
            }
        }),
{
    let method_text = match input.get_string("method") {
        Some(m) => m,
        None => {
            return Err(ToolError::InvalidInput(String::from_str("Missing 'method' field")));
        },
    };
    let url = match input.get_string("url") {
        Some(u) => u,
        None => {
            return Err(ToolError::InvalidInput(String::from_str("Missing 'url' field")));
        },
    };
    match parse_method(method_text.as_str()) {
        Ok(method) => Ok((method, url)),
        Err(e) => Err(e),
    }
}

/// How a configured endpoint and a request path join: a separating slash is
/// added only when neither side brings one.
pub open spec fn spec_joined_url(base: Seq<char>, path: Seq<char>) -> Seq<char> {
    if (path.len() == 0 || path[0] != '/') && (base.len() == 0 || base.last() != '/') {
        base + ("/")@ + path
    } else {
        base + path
    }
}

/// Joins a configured endpoint URL and a request path.
pub fn join_endpoint_url(base: &str, path: &str) -> (r: String)
    ensures
        r@ == spec_joined_url(base@, path@),
{
    let base_chars = str_chars(base);
    let path_chars = str_chars(path);
    let path_rooted = path_chars.len() > 0 && path_chars[0] == '/';
    let base_slashed = base_chars.len() > 0 && base_chars[base_chars.len() - 1] == '/';
    let mut out = String::from_str(base);
    if !path_rooted && !base_slashed {
        out.append("/");
    }
    out.append(path);
    out
}

impl HttpMethod {
    /// The method's canonical name.
    pub fn as_text(&self) -> (r: String)
        ensures
            (*self == HttpMethod::Get ==> r@ == "GET"@),
            (*self == HttpMethod::Post ==> r@ == "POST"@),
            (*self == HttpMethod::Put ==> r@ == "PUT"@),
            (*self == HttpMethod::Delete ==> r@ == "DELETE"@),
            (*self == HttpMethod::Patch ==> r@ == "PATCH"@),
            (*self == HttpMethod::Head ==> r@ == "HEAD"@),
            (*self == HttpMethod::Options ==> r@ == "OPTIONS"@),
    {
        match self {
            HttpMethod::Get => String::from_str("GET"),
            HttpMethod::Post => String::from_str("POST"),
            HttpMethod::Put => String::from_str("PUT"),
            HttpMethod::Delete => String::from_str("DELETE"),
            HttpMethod::Patch => String::from_str("PATCH"),
            HttpMethod::Head => String::from_str("HEAD"),
            HttpMethod::Options => String::from_str("OPTIONS"),
        }
    }
}

} // verus!
