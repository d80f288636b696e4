//! Forms: the submitted fields, the request a form makes, and the URL of a
//! GET request with its query string.
use vstd::prelude::*;

use crate::text::{chars_of, string_of};

verus! {

/// The HTTP method of a form.
#[derive(Clone, Copy, Debug, PartialEq, Eq, Structural)]
pub enum FormMethod {
    Get,
    Post,
}

impl Default for FormMethod {
    fn default() -> (m: Self)
        ensures
            m == FormMethod::Get,
    {
        FormMethod::Get
    }
}

/// How a POST form encodes its fields.
#[derive(Clone, Copy, Debug, PartialEq, Eq, Structural)]
pub enum FormEncoding {
    UrlEncoded,
    Json,
}

impl Default for FormEncoding {
    fn default() -> (e: Self)
        ensures
            e == FormEncoding::UrlEncoded,
    {
        FormEncoding::UrlEncoded
    }
}

/// A form: where and how it submits, its submit button, and its fields as
/// `(key, value)` pairs.
pub struct Form {
    pub action: String,
    pub method: FormMethod,
    pub encoding: FormEncoding,
    pub submit_label: String,
    pub disabled: bool,
    pub show_submit_button: bool,
    pub fields: Vec<(String, String)>,
}

/// The request a form sends.
pub struct FormRequest {
    pub action: String,
    pub method: FormMethod,
    pub encoding: FormEncoding,
    pub fields: Vec<(String, String)>,
}

/// A copy of a list of fields.
fn clone_fields(fields: &Vec<(String, String)>) -> (out: Vec<(String, String)>)
    ensures
        out@ == fields@,
{
    let mut out: Vec<(String, String)> = Vec::new();
    let mut i: usize = 0;
    while i < fields.len()
        invariant
            i <= fields.len(),
            out@ == fields@.take(i as int),
        decreases fields.len() - i,
    {
        let pair = (fields[i].0.clone(), fields[i].1.clone());
        out.push(pair);
        assert(fields@.take(i as int).push(fields@[i as int]) == fields@.take(i + 1));
        i += 1;
    }
    assert(fields@.take(fields.len() as int) == fields@);
    out
}

/// Appends `more` to `fields`.
fn extend_fields(fields: &mut Vec<(String, String)>, more: Vec<(String, String)>)
    ensures
        final(fields)@ == old(fields)@ + more@,
{
    let mut more = more;
    fields.append(&mut more);
}

impl Form {
    /// An enabled GET form without action or fields, submitted by a
    /// "Submit" button.
    pub fn new() -> (f: Self)
        ensures
            f.action@ == Seq::<char>::empty(),
            f.method == FormMethod::Get,
            f.encoding == FormEncoding::UrlEncoded,
            f.submit_label@ == "Submit"@,
            !f.disabled,
            f.show_submit_button,
            f.fields@.len() == 0,
    {
        Form {
            action: String::new(),
            method: FormMethod::Get,
            encoding: FormEncoding::UrlEncoded,
            submit_label: String::from_str("Submit"),
            disabled: false,
            show_submit_button: true,
            fields: Vec::new(),
        }
    }

    /// A new GET form to `action`.
    pub fn get(action: String) -> (f: Self)
        ensures
            f.action == action,
            f.method == FormMethod::Get,
            f.encoding == FormEncoding::UrlEncoded,
            f.submit_label@ == "Submit"@,
            !f.disabled,
            f.show_submit_button,
            f.fields@.len() == 0,
    {
        Self::new().action(action).method(FormMethod::Get)
    }

    /// A new POST form to `action`.
    pub fn post(action: String) -> (f: Self)
        ensures
            f.action == action,
            f.method == FormMethod::Post,
            f.encoding == FormEncoding::UrlEncoded,
            f.submit_label@ == "Submit"@,
            !f.disabled,
            f.show_submit_button,
            f.fields@.len() == 0,
    {
        Self::new().action(action).method(FormMethod::Post)
    }

    /// Sets where the form submits.
    pub fn action(self, action: String) -> (f: Self)
        ensures
            f == (Form { action, ..self }),
    {
        Form { action, ..self }
    }

    /// Sets the method.
    pub fn method(self, method: FormMethod) -> (f: Self)
        ensures
            f == (Form { method, ..self }),
    {
        Form { method, ..self }
    }

    /// Sets the encoding.
    pub fn encoding(self, encoding: FormEncoding) -> (f: Self)
        ensures
            f == (Form { encoding, ..self }),
    {
        Form { encoding, ..self }
    }

    /// Sets the submit button's label.
    pub fn submit_label(self, label: String) -> (f: Self)
        ensures
            f == (Form { submit_label: label, ..self }),
    {
        Form { submit_label: label, ..self }
    }

    /// Enables or disables the form.
    pub fn disabled(self, disabled: bool) -> (f: Self)
        ensures
            f == (Form { disabled, ..self }),
    {
        Form { disabled, ..self }
    }

    /// Shows or hides the submit button.
    pub fn show_submit_button(self, visible: bool) -> (f: Self)
        ensures
            f == (Form { show_submit_button: visible, ..self }),
    {
        Form { show_submit_button: visible, ..self }
    }

    /// Appends the field `key` = `value`.
    pub fn field(self, key: String, value: String) -> (f: Self)
        ensures
            f.fields@ == self.fields@.push((key, value)),
            f.action == self.action,
            f.method == self.method,
            f.encoding == self.encoding,
            f.submit_label == self.submit_label,
            f.disabled == self.disabled,
            f.show_submit_button == self.show_submit_button,
    {
        let mut f = self;
        f.fields.push((key, value));
        f
    }

    /// Appends the fields `values`, in order.
    pub fn fields(self, values: Vec<(String, String)>) -> (f: Self)
        ensures
            f.fields@ == self.fields@ + values@,
            f.action == self.action,
            f.method == self.method,
            f.encoding == self.encoding,
            f.submit_label == self.submit_label,
            f.disabled == self.disabled,
            f.show_submit_button == self.show_submit_button,
    {
        let mut f = self;
        extend_fields(&mut f.fields, values);
        f
    }

    /// The request the form sends.
    pub fn build_request(&self) -> (r: FormRequest)
        ensures
            r.action == self.action,
            r.method == self.method,
            r.encoding == self.encoding,
            r.fields@ == self.fields@,
    {
        FormRequest {
            action: self.action.clone(),
            method: self.method,
            encoding: self.encoding,
            fields: clone_fields(&self.fields),
        }
    }
}

/// One field as `key=value`.
pub open spec fn query_pair(field: (String, String)) -> Seq<char> {
    field.0@ + seq!['='] + field.1@
}

/// The fields as `key=value` pairs joined by `&`.
pub open spec fn query_string(fields: Seq<(String, String)>) -> Seq<char>
    decreases fields.len(),
{
    if fields.len() == 0 {
        Seq::empty()
    } else if fields.len() == 1 {
        query_pair(fields[0])
    } else {
        query_string(fields.drop_last()) + seq!['&'] + query_pair(fields.last())
    }
}

/// The URL a request goes to: the action, with the query string of the
/// fields appended after `?` for a GET request that has fields.
pub open spec fn spec_request_url(r: FormRequest) -> Seq<char> {
    if r.method != FormMethod::Get || r.fields@.len() == 0 {
        r.action@
    } else {
        r.action@ + seq!['?'] + query_string(r.fields@)
    }
}

impl FormRequest {
    /// An empty GET request.
    pub fn new() -> (r: Self)
        ensures
            r.action@ == Seq::<char>::empty(),
            r.method == FormMethod::Get,
            r.encoding == FormEncoding::UrlEncoded,
            r.fields@.len() == 0,
    {
        FormRequest {
            action: String::new(),
            method: FormMethod::Get,
            encoding: FormEncoding::UrlEncoded,
            fields: Vec::new(),
        }
    }

    /// Sets where the request goes.
    pub fn action(self, action: String) -> (r: Self)
        ensures
            r == (FormRequest { action, ..self }),
    {
        FormRequest { action, ..self }
    }

    /// Sets the method.
    pub fn method(self, method: FormMethod) -> (r: Self)
        ensures
            r == (FormRequest { method, ..self }),
    {
        FormRequest { method, ..self }
    }

    /// Sets the encoding.
    pub fn encoding(self, encoding: FormEncoding) -> (r: Self)
        ensures
            r == (FormRequest { encoding, ..self }),
    {
        FormRequest { encoding, ..self }
    }

    /// Appends the field `key` = `value`.
    pub fn field(self, key: String, value: String) -> (r: Self)
        ensures
            r.fields@ == self.fields@.push((key, value)),
            r.action == self.action,
            r.method == self.method,
            r.encoding == self.encoding,
    {
        let mut r = self;
        r.fields.push((key, value));
        r
    }

    /// Appends the fields `values`, in order.
    pub fn fields(self, values: Vec<(String, String)>) -> (r: Self)
        ensures
            r.fields@ == self.fields@ + values@,
            r.action == self.action,
            r.method == self.method,
            r.encoding == self.encoding,
    {
        let mut r = self;
        extend_fields(&mut r.fields, values);
        r
    }

    /// The URL the request goes to.
    pub fn request_url(&self) -> (url: String)
        ensures
            url@ == spec_request_url(*self),
    {
        if self.method != FormMethod::Get || self.fields.len() == 0 {
            return self.action.clone();
        }
        let mut out = chars_of(self.action.as_str());
        out.push('?');
        let ghost base = out@;
        let mut i: usize = 0;
        while i < self.fields.len()
            invariant
                i <= self.fields@.len(),
                self.fields@.len() > 0,
                base == self.action@ + seq!['?'],
                out@ == base + query_string(self.fields@.take(i as int)),
            decreases self.fields@.len() - i,
        {
            let ghost before = out@;
            if i > 0 {
                out.push('&');
            }
            let key = chars_of(self.fields[i].0.as_str());
            let value = chars_of(self.fields[i].1.as_str());
            let mut k = key;
            let mut v = value;
            out.append(&mut k);
            out.push('=');
            out.append(&mut v);
            proof {
                let t = self.fields@.take(i + 1);
                assert(t.drop_last() == self.fields@.take(i as int));
                assert(t.last() == self.fields@[i as int]);
                if i == 0 {
                    assert(t.len() == 1);
                    assert(out@ == base + query_string(t));
                } else {
                    assert(out@ == base + query_string(t));
                }
            }
            i += 1;
        }
        proof {
            assert(self.fields@.take(self.fields@.len() as int) == self.fields@);
        }
        string_of(&out)
    }
}

} // verus!
