use crate::cross::clrepr_python::{item_of, text_of, model_of, ExtractError, PyModel, PyValue};
use vstd::prelude::*;
use vstd::string::StringExecFns;

verus! {

/// Tokens that the host feeds to an engine on the embedded side.
#[derive(Debug, PartialEq)]
pub struct IngestedTokens {
    pub data: Option<Vec<String>>,
    pub file: String,
    pub is_token_stream: Option<bool>,
    pub doc_source: String,
}

/// The value of an `IngestedTokens`.
pub struct IngestedTokensView {
    pub data: Option<Seq<Seq<char>>>,
    pub file: Seq<char>,
    pub is_token_stream: Option<bool>,
    pub doc_source: Seq<char>,
}

/// The texts of a sequence of strings, in order.
pub open spec fn texts_of(s: Seq<String>) -> Seq<Seq<char>> {
    Seq::new(s.len(), |i: int| s[i]@)
}

impl View for IngestedTokens {
    type V = IngestedTokensView;

    open spec fn view(&self) -> IngestedTokensView {
        IngestedTokensView {
            data: match self.data {
                Some(d) => Some(texts_of(d@)),
                None => None,
            },
            file: self.file@,
            is_token_stream: self.is_token_stream,
            doc_source: self.doc_source@,
        }
    }
}

/// A list of plain texts.
pub open spec fn text_list_model(texts: Seq<Seq<char>>) -> PyModel {
    PyModel::List(Seq::new(texts.len(), |i: int| PyModel::Str(texts[i])))
}

/// The dictionary that shows the tokens to the embedded side. A field that
/// is absent is shown as the runtime's null.
pub open spec fn ingested_tokens_model(t: IngestedTokensView) -> PyModel {
    PyModel::Dict(
        seq![
            (
                PyModel::Str("data"@),
                match t.data {
                    Some(d) => text_list_model(d),
                    None => PyModel::NoneValue,
                },
            ),
            (PyModel::Str("file"@), PyModel::Str(t.file)),
            (
                PyModel::Str("is_token_stream"@),
                match t.is_token_stream {
                    Some(b) => PyModel::Bool(b),
                    None => PyModel::NoneValue,
                },
            ),
            (PyModel::Str("doc_source"@), PyModel::Str(t.doc_source)),
        ],
    )
}

/// The texts of a runtime value that is null or a list of plain texts.
pub open spec fn optional_texts_of(p: PyValue) -> Result<Option<Seq<Seq<char>>>, ExtractError> {
    match p {
        PyValue::NoneValue => Ok(None),
        PyValue::List(xs) => if forall|i: int| 0 <= i < xs@.len() ==> (#[trigger] xs@[i]) is Str {
            Ok(Some(Seq::new(xs@.len(), |i: int| xs@[i]->Str_0@)))
        } else {
            Err(ExtractError::WrongType)
        },
        _ => Err(ExtractError::WrongType),
    }
}

/// The flag of a runtime value that is null or a boolean.
pub open spec fn optional_bool_of(p: PyValue) -> Result<Option<bool>, ExtractError> {
    match p {
        PyValue::NoneValue => Ok(None),
        PyValue::Bool(b) => Ok(Some(b)),
        _ => Err(ExtractError::WrongType),
    }
}

/// The tokens that a runtime value stands for: a dictionary with the items
/// `data`, `file`, `is_token_stream` and `doc_source`, read in that order; the
/// first item that is missing or of the wrong type decides the error.
pub open spec fn ingested_tokens_of(p: PyValue) -> Result<IngestedTokensView, ExtractError> {
    match item_of(p, "data"@) {
        Err(e) => Err(e),
        Ok(d) => match optional_texts_of(d) {
            Err(e) => Err(e),
            Ok(data) => match item_of(p, "file"@) {
                Err(e) => Err(e),
                Ok(f) => match text_of(f) {
                    Err(e) => Err(e),
                    Ok(file) => match item_of(p, "is_token_stream"@) {
                        Err(e) => Err(e),
                        Ok(s) => match optional_bool_of(s) {
                            Err(e) => Err(e),
                            Ok(is_token_stream) => match item_of(p, "doc_source"@) {
                                Err(e) => Err(e),
                                Ok(ds) => match text_of(ds) {
                                    Err(e) => Err(e),
                                    Ok(doc_source) => Ok(
                                        IngestedTokensView {
                                            data,
                                            file,
                                            is_token_stream,
                                            doc_source,
                                        },
                                    ),
                                },
                            },
                        },
                    },
                },
            },
        },
    }
}

/// A copy of each string, in order.
fn clone_texts(v: &Vec<String>) -> (r: Vec<String>)
    ensures
        texts_of(r@) == texts_of(v@),
{
    let mut out: Vec<String> = Vec::new();
    let mut i: usize = 0;
    while i < v.len()
        invariant
            i <= v.len(),
            out@.len() == i,
            forall|j: int| 0 <= j < i ==> (#[trigger] out@[j])@ == v@[j]@,
        decreases v.len() - i,
    {
        out.push(v[i].clone());
        i += 1;
    }
    assert(texts_of(out@) =~= texts_of(v@));
    out
}

/// A list of plain texts, one for each string.
fn text_list(v: &Vec<String>) -> (p: PyValue)
    ensures
        p@ == text_list_model(texts_of(v@)),
{
    let mut out: Vec<PyValue> = Vec::new();
    let mut i: usize = 0;
    while i < v.len()
        invariant
            i <= v.len(),
            out@.len() == i,
            forall|j: int| 0 <= j < i ==> (#[trigger] out@[j])@ == PyModel::Str(v@[j]@),
        decreases v.len() - i,
    {
        out.push(PyValue::Str(v[i].clone()));
        i += 1;
    }
    let p = PyValue::List(out);
    assert(p@->List_0 =~= text_list_model(texts_of(v@))->List_0);
    p
}

/// The texts of a list of plain texts.
fn extract_texts(xs: &Vec<PyValue>) -> (r: Result<Vec<String>, ExtractError>)
    ensures
        match r {
            Ok(v) => (forall|i: int| 0 <= i < xs@.len() ==> (#[trigger] xs@[i]) is Str) && texts_of(
                v@,
            ) == Seq::new(xs@.len(), |i: int| xs@[i]->Str_0@),
            Err(e) => e == ExtractError::WrongType && !(forall|i: int|
                0 <= i < xs@.len() ==> (#[trigger] xs@[i]) is Str),
        },
{
    let mut out: Vec<String> = Vec::new();
    let mut i: usize = 0;
    while i < xs.len()
        invariant
            i <= xs.len(),
            out@.len() == i,
            forall|j: int| 0 <= j < i ==> (#[trigger] xs@[j]) is Str && out@[j]@ == xs@[j]->Str_0@,
        decreases xs.len() - i,
    {
        match &xs[i] {
            PyValue::Str(s) => {
                out.push(s.clone());
            },
            _ => {
                assert(!(xs@[i as int] is Str));
                return Err(ExtractError::WrongType);
            },
        }
        i += 1;
    }
    assert(texts_of(out@) =~= Seq::new(xs@.len(), |i: int| xs@[i]->Str_0@));
    Ok(out)
}

impl Clone for IngestedTokens {
    fn clone(&self) -> (r: Self)
        ensures
            r@ == self@,
    {
        IngestedTokens {
            data: match &self.data {
                Some(d) => Some(clone_texts(d)),
                None => None,
            },
            file: self.file.clone(),
            is_token_stream: self.is_token_stream,
            doc_source: self.doc_source.clone(),
        }
    }
}

impl IngestedTokens {
    /// Reads the tokens from a runtime value.
    pub fn extract(ob: &PyValue) -> (r: Result<IngestedTokens, ExtractError>)
        ensures
            match ingested_tokens_of(*ob) {
                Ok(v) => r matches Ok(s) && s@ == v,
                Err(e) => r matches Err(x) && x == e,
            },
    {
        let data = match ob.get_item("data") {
            Ok(d) => match d {
                PyValue::NoneValue => None,
                PyValue::List(xs) => match extract_texts(xs) {
                    Ok(v) => Some(v),
                    Err(e) => {
                        return Err(e);
                    },
                },
                _ => {
                    return Err(ExtractError::WrongType);
                },
            },
            Err(e) => {
                return Err(e);
            },
        };
        let file = match ob.get_item("file") {
            Ok(t) => match t.as_text() {
                Ok(v) => v.clone(),
                Err(e) => {
                    return Err(e);
                },
            },
            Err(e) => {
                return Err(e);
            },
        };
        let is_token_stream = match ob.get_item("is_token_stream") {
            Ok(t) => match t {
                PyValue::NoneValue => None,
                PyValue::Bool(b) => Some(*b),
                _ => {
                    return Err(ExtractError::WrongType);
                },
            },
            Err(e) => {
                return Err(e);
            },
        };
        let doc_source = match ob.get_item("doc_source") {
            Ok(t) => match t.as_text() {
                Ok(v) => v.clone(),
                Err(e) => {
                    return Err(e);
                },
            },
            Err(e) => {
                return Err(e);
            },
        };
        Ok(IngestedTokens { data, file, is_token_stream, doc_source })
    }

    /// The tokens as the embedded side sees them: a dictionary with the items
    /// `data`, `file`, `is_token_stream` and `doc_source`.
    pub fn to_object(&self) -> (p: PyValue)
        ensures
            p@ == ingested_tokens_model(self@),
    {
        let data = match &self.data {
            Some(d) => text_list(d),
            None => PyValue::NoneValue,
        };
        let stream = match self.is_token_stream {
            Some(b) => PyValue::Bool(b),
            None => PyValue::NoneValue,
        };
        let mut items: Vec<(PyValue, PyValue)> = Vec::new();
        items.push((PyValue::Str(String::from_str("data")), data));
        items.push((PyValue::Str(String::from_str("file")), PyValue::Str(self.file.clone())));
        items.push((PyValue::Str(String::from_str("is_token_stream")), stream));
        items.push(
            (PyValue::Str(String::from_str("doc_source")), PyValue::Str(self.doc_source.clone())),
        );
        let p = PyValue::Dict(items);
        proof {
            reveal_with_fuel(model_of, 3);
            assert(p@->Dict_0 =~= ingested_tokens_model(self@)->Dict_0);
        }
        p
    }

    /// Gives up the tokens for what the embedded side sees of them.
    pub fn into_py(self) -> (p: PyValue)
        ensures
            p@ == ingested_tokens_model(self@),
    {
        self.to_object()
    }
}

} // verus!
