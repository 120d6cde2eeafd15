//! The builder calls that an element expands into.
//!
//! An element becomes one call that constructs it by its tag, then one call
//! for each field and one for each child, chained in that order.

use vstd::prelude::*;
use crate::oracle::{quote_string, string_literal};

verus! {

/// One call of a builder chain. Every argument is the text of an
/// expression, except an attribute's name, which is passed as a string.
#[derive(Clone, Debug, PartialEq, Eq)]
pub enum Call {
    /// `leptos::html::tag()`
    Construct { tag: String },
    /// `.attr("name", value)`
    Attr { name: String, value: String },
    /// `.classes(value)`
    Classes { value: String },
    /// `.class(condition, value)`
    Class { condition: String, value: String },
    /// `.style(value)`
    Style { value: String },
    /// `.child(value)`
    Child { value: String },
}

/// The mathematical value of a [`Call`].
pub enum CallView {
    Construct { tag: Seq<char> },
    Attr { name: Seq<char>, value: Seq<char> },
    Classes { value: Seq<char> },
    Class { condition: Seq<char>, value: Seq<char> },
    Style { value: Seq<char> },
    Child { value: Seq<char> },
}

impl View for Call {
    type V = CallView;

    open spec fn view(&self) -> CallView {
        match *self {
            Call::Construct { tag } => CallView::Construct { tag: tag@ },
            Call::Attr { name, value } => CallView::Attr { name: name@, value: value@ },
            Call::Classes { value } => CallView::Classes { value: value@ },
            Call::Class { condition, value } => CallView::Class {
                condition: condition@,
                value: value@,
            },
            Call::Style { value } => CallView::Style { value: value@ },
            Call::Child { value } => CallView::Child { value: value@ },
        }
    }
}

/// The values of a sequence of calls.
pub open spec fn call_views(calls: Seq<Call>) -> Seq<CallView> {
    Seq::new(calls.len(), |i: int| calls[i]@)
}

/// A method call with one argument: `.method(argument)`.
pub open spec fn method_call(method: Seq<char>, argument: Seq<char>) -> Seq<char> {
    (seq!['.'] + method).push('(') + argument.push(')')
}

/// A method call with two arguments: `.method(first, second)`.
pub open spec fn method_call_2(method: Seq<char>, first: Seq<char>, second: Seq<char>) -> Seq<
    char,
> {
    method_call(method, first.push(',').push(' ') + second)
}

impl CallView {
    /// The call as it is written.
    pub open spec fn text(self) -> Seq<char> {
        match self {
            CallView::Construct { tag } => "leptos::html::"@ + tag + "()"@,
            CallView::Attr { name, value } => method_call_2("attr"@, string_literal(name), value),
            CallView::Classes { value } => method_call("classes"@, value),
            CallView::Class { condition, value } => method_call_2("class"@, condition, value),
            CallView::Style { value } => method_call("style"@, value),
            CallView::Child { value } => method_call("child"@, value),
        }
    }
}

/// The text of a chain: its calls as they are written, one behind the
/// other.
pub open spec fn chain_text(calls: Seq<CallView>) -> Seq<char>
    decreases calls.len(),
{
    if calls.len() == 0 {
        seq![]
    } else {
        chain_text(calls.drop_last()) + calls.last().text()
    }
}

/// Appends `.method(argument)` to `text`.
pub fn write_method_call(text: &mut String, method: &str, argument: &str)
    ensures
        final(text)@ == old(text)@ + method_call(method@, argument@),
{
    text.push('.');
    text.append(method);
    text.push('(');
    text.append(argument);
    text.push(')');
}

/// Appends `.method(first, second)` to `text`.
pub fn write_method_call_2(text: &mut String, method: &str, first: &str, second: &str)
    ensures
        final(text)@ == old(text)@ + method_call_2(method@, first@, second@),
{
    text.push('.');
    text.append(method);
    text.push('(');
    text.append(first);
    text.push(',');
    text.push(' ');
    text.append(second);
    text.push(')');
}

/// The text of two chains, one behind the other, is the text of the first
/// and then the text of the second.
pub proof fn lemma_chain_text_concat(first: Seq<CallView>, second: Seq<CallView>)
    ensures
        chain_text(first + second) == chain_text(first) + chain_text(second),
    decreases second.len(),
{
    if second.len() == 0 {
        assert(first + second =~= first);
        assert(chain_text(second) =~= Seq::<char>::empty());
    } else {
        assert((first + second).drop_last() =~= first + second.drop_last());
        lemma_chain_text_concat(first, second.drop_last());
    }
}

impl Call {
    /// Appends the call, as it is written, to `text`.
    pub fn write(&self, text: &mut String)
        ensures
            final(text)@ == old(text)@ + self@.text(),
    {
        match self {
            Call::Construct { tag } => {
                text.append("leptos::html::");
                text.append(tag.as_str());
                text.append("()");
            },
            Call::Attr { name, value } => {
                let literal = quote_string(name.as_str());
                write_method_call_2(text, "attr", literal.as_str(), value.as_str());
            },
            Call::Classes { value } => write_method_call(text, "classes", value.as_str()),
            Call::Class { condition, value } => write_method_call_2(
                text,
                "class",
                condition.as_str(),
                value.as_str(),
            ),
            Call::Style { value } => write_method_call(text, "style", value.as_str()),
            Call::Child { value } => write_method_call(text, "child", value.as_str()),
        }
    }
}

/// The text of the chain of `calls`.
pub fn write_chain(calls: &Vec<Call>) -> (text: String)
    ensures
        text@ == chain_text(call_views(calls@)),
{
    let mut text = String::new();
    let ghost views = call_views(calls@);
    for i in 0..calls.len()
        invariant
            views == call_views(calls@),
            text@ == chain_text(views.subrange(0, i as int)),
    {
        calls[i].write(&mut text);
        proof {
            let next = views.subrange(0, i + 1);
            assert(next.drop_last() =~= views.subrange(0, i as int));
        }
    }
    assert(views.subrange(0, calls.len() as int) =~= views);
    text
}

} // verus!
