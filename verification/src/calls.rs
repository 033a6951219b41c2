//! Recursive, policy-driven rendering of a call tree.
//!
//! Traversal is unconditional pre-order depth-first: visibility is decided
//! per node from its contract classification and the display mode, never
//! inherited, and a hidden node's children are still visited. Selector
//! resolution is best-effort: the renderer consumes a `ResolutionMap` of
//! answers already gathered (see `collect_call_requests`) and falls back to
//! raw hex for anything unresolved.

use vstd::prelude::*;

use crate::bytes::copy_bytes;
use crate::directory::{classify_spec, label_spec, AddressDirectory, ContractType, KnownAddress};
use crate::hexfmt::{dec_of, dec_string, hex_of, hex_string, hex_string_prefixed, hex_with_prefix};
use crate::resolver::{lookup_spec, ResolutionMap, ResolvedNameModel};
use crate::style::{Span, SpanModel};

verus! {

/// The display-mode policy controlling call-tree filtering.
#[derive(Clone, Copy, Debug, PartialEq, Eq, Structural)]
pub enum ShowCalls {
    All,
    NoCalls,
    User,
    System,
}

/// The kind of a call.
#[derive(Clone, Copy, Debug, PartialEq, Eq, Structural)]
pub enum CallType {
    Call,
    Create,
    NearCall,
}

/// One node of the call tree produced by the virtual machine.
pub struct CallTraceNode {
    pub call_type: CallType,
    pub to: [u8; 20],
    pub input: Vec<u8>,
    pub gas: u64,
    pub revert_reason: Option<String>,
    pub error: Option<String>,
    pub children: Vec<CallTraceNode>,
}

/// The visibility table: whether a call to a contract of type `t` is shown
/// under mode `mode`. Total over all sixteen combinations.
pub open spec fn visible_spec(t: ContractType, mode: ShowCalls) -> bool {
    match mode {
        ShowCalls::All => true,
        ShowCalls::NoCalls => false,
        ShowCalls::User => match t {
            ContractType::Unknown => true,
            ContractType::Popular => true,
            ContractType::Precompile => false,
            ContractType::System => false,
        },
        ShowCalls::System => match t {
            ContractType::Unknown => true,
            ContractType::Popular => true,
            ContractType::Precompile => false,
            ContractType::System => true,
        },
    }
}

/// Decides visibility of one call; exactly the table of `visible_spec`.
pub fn should_show(t: ContractType, mode: &ShowCalls) -> (r: bool)
    ensures
        r == visible_spec(t, *mode),
{
    match (t, mode) {
        (_, ShowCalls::All) => true,
        (_, ShowCalls::NoCalls) => false,
        (ContractType::Unknown, _) => true,
        (ContractType::Popular, _) => true,
        (ContractType::Precompile, _) => false,
        (ContractType::System, ShowCalls::User) => false,
        (ContractType::System, ShowCalls::System) => true,
    }
}

/// The text of the call-type tag.
pub open spec fn tag_spec(t: CallType) -> Seq<char> {
    match t {
        CallType::Call => "Call"@,
        CallType::Create => "Create"@,
        CallType::NearCall => "NearCall"@,
    }
}

/// The call-type tag as text.
pub fn call_type_tag(t: &CallType) -> (r: String)
    ensures
        r@ == tag_spec(*t),
{
    match t {
        CallType::Call => String::from_str("Call"),
        CallType::Create => String::from_str("Create"),
        CallType::NearCall => String::from_str("NearCall"),
    }
}

/// The function-signature field of one call line: the full input as
/// prefixed hex when shorter than four bytes; otherwise the four-byte
/// selector, resolved to a name when resolution is enabled, the contract is
/// no precompile and an answer is at hand, else as raw hex.
pub open spec fn signature_spec(
    input: Seq<u8>,
    t: ContractType,
    resolve: bool,
    answers: Seq<ResolvedNameModel>,
) -> Seq<char> {
    if input.len() < 4 {
        hex_with_prefix(input)
    } else {
        let sel = input.take(4);
        if t == ContractType::Precompile || !resolve {
            hex_of(sel)
        } else {
            match lookup_spec(answers, sel) {
                Some(name) => name,
                None => hex_of(sel),
            }
        }
    }
}

/// With resolution disabled every selector renders as raw hex, whatever
/// answers are at hand.
pub proof fn lemma_signature_raw_when_disabled(
    input: Seq<u8>,
    t: ContractType,
    answers: Seq<ResolvedNameModel>,
)
    ensures
        signature_spec(input, t, false, answers) == if input.len() < 4 {
            hex_with_prefix(input)
        } else {
            hex_of(input.take(4))
        },
{
}

/// The mathematical value of one rendered call line.
pub ghost struct CallLineModel {
    pub indent: nat,
    pub tag: Seq<char>,
    pub label: SpanModel,
    pub signature: Seq<char>,
    pub revert_reason: Option<Seq<char>>,
    pub error: Option<Seq<char>>,
    pub gas: u64,
    pub failure: bool,
}

/// One rendered call line: indentation, call-type tag, target label,
/// function-signature field, optional revert reason and error, and gas.
/// `failure` marks a line carrying a revert reason or an error.
#[derive(Clone, Debug)]
pub struct RenderedCall {
    pub indent: usize,
    pub tag: String,
    pub label: Span,
    pub signature: String,
    pub revert_reason: Option<String>,
    pub error: Option<String>,
    pub gas: u64,
    pub failure: bool,
}

impl View for RenderedCall {
    type V = CallLineModel;

    open spec fn view(&self) -> CallLineModel {
        CallLineModel {
            indent: self.indent as nat,
            tag: self.tag@,
            label: self.label@,
            signature: self.signature@,
            revert_reason: self.revert_reason.deep_view(),
            error: self.error.deep_view(),
            gas: self.gas,
            failure: self.failure,
        }
    }
}

impl DeepView for RenderedCall {
    type V = CallLineModel;

    open spec fn deep_view(&self) -> CallLineModel {
        self@
    }
}

/// The line rendered for one node at a given indentation.
pub open spec fn line_model_spec(
    n: CallTraceNode,
    indent: nat,
    dir: Seq<KnownAddress>,
    resolve: bool,
    answers: Seq<ResolvedNameModel>,
) -> CallLineModel {
    CallLineModel {
        indent,
        tag: tag_spec(n.call_type),
        label: label_spec(dir, n.to@),
        signature: signature_spec(n.input@, classify_spec(dir, n.to@), resolve, answers),
        revert_reason: n.revert_reason.deep_view(),
        error: n.error.deep_view(),
        gas: n.gas,
        failure: n.revert_reason is Some || n.error is Some,
    }
}

/// The lines rendered for a node and, after it, its whole subtree:
/// pre-order, children in call order, visibility decided per node.
pub open spec fn render_call_spec(
    n: CallTraceNode,
    padding: nat,
    dir: Seq<KnownAddress>,
    mode: ShowCalls,
    resolve: bool,
    answers: Seq<ResolvedNameModel>,
) -> Seq<CallLineModel>
    decreases n,
{
    let own = if visible_spec(classify_spec(dir, n.to@), mode) {
        seq![line_model_spec(n, padding, dir, resolve, answers)]
    } else {
        Seq::empty()
    };
    own + render_children_spec(n.children@, padding + 2, dir, mode, resolve, answers)
}

/// The lines rendered for a sequence of sibling subtrees, in order.
pub open spec fn render_children_spec(
    ns: Seq<CallTraceNode>,
    padding: nat,
    dir: Seq<KnownAddress>,
    mode: ShowCalls,
    resolve: bool,
    answers: Seq<ResolvedNameModel>,
) -> Seq<CallLineModel>
    decreases ns,
{
    if ns.len() == 0 {
        Seq::empty()
    } else {
        render_call_spec(ns[0], padding, dir, mode, resolve, answers) + render_children_spec(
            ns.drop_first(),
            padding,
            dir,
            mode,
            resolve,
            answers,
        )
    }
}

/// The height of a call tree: one more than the highest child.
pub open spec fn height_spec(n: CallTraceNode) -> nat
    decreases n,
{
    1 + children_height_spec(n.children@)
}

/// The highest tree among siblings, zero for none.
pub open spec fn children_height_spec(ns: Seq<CallTraceNode>) -> nat
    decreases ns,
{
    if ns.len() == 0 {
        0
    } else {
        let h0 = height_spec(ns[0]);
        let hr = children_height_spec(ns.drop_first());
        if h0 > hr {
            h0
        } else {
            hr
        }
    }
}

/// Every sibling's tree is at most as high as the highest.
proof fn lemma_member_height(ns: Seq<CallTraceNode>, i: int)
    requires
        0 <= i < ns.len(),
    ensures
        height_spec(ns[i]) <= children_height_spec(ns),
    decreases ns.len(),
{
    if i > 0 {
        lemma_member_height(ns.drop_first(), i - 1);
    }
}

/// Rendering distributes over splitting a sibling sequence.
proof fn lemma_render_children_concat(
    a: Seq<CallTraceNode>,
    b: Seq<CallTraceNode>,
    padding: nat,
    dir: Seq<KnownAddress>,
    mode: ShowCalls,
    resolve: bool,
    answers: Seq<ResolvedNameModel>,
)
    ensures
        render_children_spec(a + b, padding, dir, mode, resolve, answers) == render_children_spec(
            a,
            padding,
            dir,
            mode,
            resolve,
            answers,
        ) + render_children_spec(b, padding, dir, mode, resolve, answers),
    decreases a.len(),
{
    if a.len() == 0 {
        assert(a + b =~= b);
        assert(render_children_spec(a, padding, dir, mode, resolve, answers)
            + render_children_spec(b, padding, dir, mode, resolve, answers) =~= render_children_spec(
            b,
            padding,
            dir,
            mode,
            resolve,
            answers,
        ));
    } else {
        lemma_render_children_concat(a.drop_first(), b, padding, dir, mode, resolve, answers);
        assert((a + b).drop_first() =~= a.drop_first() + b);
        assert((a + b)[0] == a[0]);
        assert(render_children_spec(a + b, padding, dir, mode, resolve, answers)
            =~= render_children_spec(a, padding, dir, mode, resolve, answers)
            + render_children_spec(b, padding, dir, mode, resolve, answers));
    }
}

/// Rendering one more sibling appends that sibling's lines.
proof fn lemma_render_children_take_step(
    ns: Seq<CallTraceNode>,
    i: int,
    padding: nat,
    dir: Seq<KnownAddress>,
    mode: ShowCalls,
    resolve: bool,
    answers: Seq<ResolvedNameModel>,
)
    requires
        0 <= i < ns.len(),
    ensures
        render_children_spec(ns.take(i + 1), padding, dir, mode, resolve, answers)
            == render_children_spec(ns.take(i), padding, dir, mode, resolve, answers)
            + render_call_spec(ns[i], padding, dir, mode, resolve, answers),
{
    assert(ns.take(i + 1) =~= ns.take(i) + seq![ns[i]]);
    lemma_render_children_concat(ns.take(i), seq![ns[i]], padding, dir, mode, resolve, answers);
    let q = seq![ns[i]];
    assert(q.drop_first() =~= Seq::<CallTraceNode>::empty());
    assert(render_children_spec(q.drop_first(), padding, dir, mode, resolve, answers)
        =~= Seq::<CallLineModel>::empty());
    assert(render_children_spec(q, padding, dir, mode, resolve, answers) =~= render_call_spec(
        ns[i],
        padding,
        dir,
        mode,
        resolve,
        answers,
    ));
}

/// Builds the function-signature field for one call.
fn build_signature(
    input: &Vec<u8>,
    t: ContractType,
    resolve: bool,
    answers: &ResolutionMap,
) -> (r: String)
    ensures
        r@ == signature_spec(input@, t, resolve, answers.entries.deep_view()),
{
    if input.len() < 4 {
        hex_string_prefixed(input.as_slice())
    } else {
        let sel = vstd::slice::slice_subrange(input.as_slice(), 0, 4);
        assert(sel@ =~= input@.take(4));
        if t == ContractType::Precompile || !resolve {
            hex_string(sel)
        } else {
            match answers.lookup(sel) {
                Some(name) => name,
                None => hex_string(sel),
            }
        }
    }
}

/// Renders a call and its whole subtree into lines, in pre-order.
///
/// `padding` is the indentation of this call's own line; each level below
/// is indented two more. Children are visited whether or not this node is
/// shown, and are never reordered.
#[verifier::loop_isolation(false)]
#[verifier::rlimit(60)]
pub fn print_call(
    call: &CallTraceNode,
    padding: usize,
    show_calls: &ShowCalls,
    resolve_hashes: bool,
    dir: &AddressDirectory,
    answers: &ResolutionMap,
) -> (r: Vec<RenderedCall>)
    requires
        padding + 2 * height_spec(*call) <= usize::MAX,
    ensures
        r.deep_view() == render_call_spec(
            *call,
            padding as nat,
            dir.entries@,
            *show_calls,
            resolve_hashes,
            answers.entries.deep_view(),
        ),
    decreases *call,
{
    let ghost dirv = dir.entries@;
    let ghost ansv = answers.entries.deep_view();
    let mut out: Vec<RenderedCall> = Vec::new();
    let t = dir.classify(&call.to);
    if should_show(t, show_calls) {
        let failure = call.revert_reason.is_some() || call.error.is_some();
        let revert_reason = match &call.revert_reason {
            Some(s) => Some(s.clone()),
            None => None,
        };
        let error = match &call.error {
            Some(s) => Some(s.clone()),
            None => None,
        };
        let line = RenderedCall {
            indent: padding,
            tag: call_type_tag(&call.call_type),
            label: dir.display_name(&call.to),
            signature: build_signature(&call.input, t, resolve_hashes, answers),
            revert_reason,
            error,
            gas: call.gas,
            failure,
        };
        assert(line@ == line_model_spec(*call, padding as nat, dirv, resolve_hashes, ansv));
        out.push(line);
    }
    let ghost head = out.deep_view();
    assert(head =~= if visible_spec(classify_spec(dirv, call.to@), *show_calls) {
        seq![line_model_spec(*call, padding as nat, dirv, resolve_hashes, ansv)]
    } else {
        Seq::<CallLineModel>::empty()
    });
    let n = call.children.len();
    let mut ci: usize = 0;
    while ci < n
        invariant
            n == call.children@.len(),
            ci <= n,
            padding + 2 * height_spec(*call) <= usize::MAX,
            out.deep_view() =~= head + render_children_spec(
                call.children@.take(ci as int),
                padding as nat + 2,
                dirv,
                *show_calls,
                resolve_hashes,
                ansv,
            ),
        decreases n - ci,
    {
        proof {
            lemma_member_height(call.children@, ci as int);
            assert(decreases_to!(*call => call.children@[ci as int]));
        }
        let ghost pre = out.deep_view();
        let child = &call.children[ci];
        let mut sub = print_call(child, padding + 2, show_calls, resolve_hashes, dir, answers);
        let ghost subv = sub.deep_view();
        out.append(&mut sub);
        proof {
            assert(out.deep_view() =~= pre + subv);
            lemma_render_children_take_step(
                call.children@,
                ci as int,
                padding as nat + 2,
                dirv,
                *show_calls,
                resolve_hashes,
                ansv,
            );
            assert(out.deep_view() =~= head + render_children_spec(
                call.children@.take(ci as int + 1),
                padding as nat + 2,
                dirv,
                *show_calls,
                resolve_hashes,
                ansv,
            ));
        }
        ci = ci + 1;
    }
    proof {
        assert(call.children@.take(n as int) =~= call.children@);
        assert(out.deep_view() =~= render_call_spec(
            *call,
            padding as nat,
            dirv,
            *show_calls,
            resolve_hashes,
            ansv,
        ));
    }
    out
}

/// The selectors a render of this subtree would try to resolve: one
/// four-byte selector per visible, non-precompile call with at least four
/// bytes of input, in traversal order; none when resolution is disabled.
pub open spec fn call_requests_spec(
    n: CallTraceNode,
    dir: Seq<KnownAddress>,
    mode: ShowCalls,
    resolve: bool,
) -> Seq<Seq<u8>>
    decreases n,
{
    let own = if resolve && visible_spec(classify_spec(dir, n.to@), mode) && n.input@.len() >= 4
        && classify_spec(dir, n.to@) != ContractType::Precompile {
        seq![n.input@.take(4)]
    } else {
        Seq::empty()
    };
    own + children_requests_spec(n.children@, dir, mode, resolve)
}

/// The selectors requested for a sequence of sibling subtrees, in order.
pub open spec fn children_requests_spec(
    ns: Seq<CallTraceNode>,
    dir: Seq<KnownAddress>,
    mode: ShowCalls,
    resolve: bool,
) -> Seq<Seq<u8>>
    decreases ns,
{
    if ns.len() == 0 {
        Seq::empty()
    } else {
        call_requests_spec(ns[0], dir, mode, resolve) + children_requests_spec(
            ns.drop_first(),
            dir,
            mode,
            resolve,
        )
    }
}

/// Requests distribute over splitting a sibling sequence.
proof fn lemma_requests_concat(
    a: Seq<CallTraceNode>,
    b: Seq<CallTraceNode>,
    dir: Seq<KnownAddress>,
    mode: ShowCalls,
    resolve: bool,
)
    ensures
        children_requests_spec(a + b, dir, mode, resolve) == children_requests_spec(
            a,
            dir,
            mode,
            resolve,
        ) + children_requests_spec(b, dir, mode, resolve),
    decreases a.len(),
{
    if a.len() == 0 {
        assert(a + b =~= b);
        assert(children_requests_spec(a, dir, mode, resolve) + children_requests_spec(
            b,
            dir,
            mode,
            resolve,
        ) =~= children_requests_spec(b, dir, mode, resolve));
    } else {
        lemma_requests_concat(a.drop_first(), b, dir, mode, resolve);
        assert((a + b).drop_first() =~= a.drop_first() + b);
        assert((a + b)[0] == a[0]);
        assert(children_requests_spec(a + b, dir, mode, resolve) =~= children_requests_spec(
            a,
            dir,
            mode,
            resolve,
        ) + children_requests_spec(b, dir, mode, resolve));
    }
}

/// One more sibling appends that sibling's requests.
proof fn lemma_requests_take_step(
    ns: Seq<CallTraceNode>,
    i: int,
    dir: Seq<KnownAddress>,
    mode: ShowCalls,
    resolve: bool,
)
    requires
        0 <= i < ns.len(),
    ensures
        children_requests_spec(ns.take(i + 1), dir, mode, resolve) == children_requests_spec(
            ns.take(i),
            dir,
            mode,
            resolve,
        ) + call_requests_spec(ns[i], dir, mode, resolve),
{
    assert(ns.take(i + 1) =~= ns.take(i) + seq![ns[i]]);
    lemma_requests_concat(ns.take(i), seq![ns[i]], dir, mode, resolve);
    let q = seq![ns[i]];
    assert(q.drop_first() =~= Seq::<CallTraceNode>::empty());
    assert(children_requests_spec(q.drop_first(), dir, mode, resolve) =~= Seq::<Seq<u8>>::empty());
    assert(children_requests_spec(q, dir, mode, resolve) =~= call_requests_spec(
        ns[i],
        dir,
        mode,
        resolve,
    ));
}

/// Gathers the selectors a render of this subtree would resolve, so the
/// caller can query the resolution service before rendering. With
/// resolution disabled the result is empty: no resolver call is owed.
#[verifier::loop_isolation(false)]
#[verifier::rlimit(60)]
pub fn collect_call_requests(
    call: &CallTraceNode,
    show_calls: &ShowCalls,
    resolve_hashes: bool,
    dir: &AddressDirectory,
) -> (r: Vec<Vec<u8>>)
    ensures
        r.deep_view() == call_requests_spec(*call, dir.entries@, *show_calls, resolve_hashes),
        !resolve_hashes ==> r@.len() == 0,
    decreases *call,
{
    let ghost dirv = dir.entries@;
    let mut out: Vec<Vec<u8>> = Vec::new();
    let t = dir.classify(&call.to);
    if resolve_hashes && should_show(t, show_calls) && call.input.len() >= 4 && !(t
        == ContractType::Precompile) {
        let sel = vstd::slice::slice_subrange(call.input.as_slice(), 0, 4);
        assert(sel@ =~= call.input@.take(4));
        out.push(copy_bytes(sel));
    }
    let ghost head = out.deep_view();
    assert(head =~~= if resolve_hashes && visible_spec(classify_spec(dirv, call.to@), *show_calls)
        && call.input@.len() >= 4 && classify_spec(dirv, call.to@) != ContractType::Precompile {
        seq![call.input@.take(4)]
    } else {
        Seq::<Seq<u8>>::empty()
    });
    let n = call.children.len();
    let mut ci: usize = 0;
    while ci < n
        invariant
            n == call.children@.len(),
            ci <= n,
            !resolve_hashes ==> out@.len() == 0,
            out.deep_view() =~~= head + children_requests_spec(
                call.children@.take(ci as int),
                dirv,
                *show_calls,
                resolve_hashes,
            ),
        decreases n - ci,
    {
        proof {
            assert(decreases_to!(*call => call.children@[ci as int]));
        }
        let ghost pre = out.deep_view();
        let mut sub = collect_call_requests(
            &call.children[ci],
            show_calls,
            resolve_hashes,
            dir,
        );
        let ghost subv = sub.deep_view();
        out.append(&mut sub);
        proof {
            assert(out.deep_view() =~~= pre + subv);
            lemma_requests_take_step(call.children@, ci as int, dirv, *show_calls, resolve_hashes);
            assert(out.deep_view() =~~= head + children_requests_spec(
                call.children@.take(ci as int + 1),
                dirv,
                *show_calls,
                resolve_hashes,
            ));
        }
        ci = ci + 1;
    }
    proof {
        assert(call.children@.take(n as int) =~= call.children@);
        assert(out.deep_view() =~~= call_requests_spec(*call, dirv, *show_calls, resolve_hashes));
    }
    out
}

/// A run of spaces.
pub open spec fn spaces(n: nat) -> Seq<char> {
    Seq::new(n, |i: int| ' ')
}

/// A run of `n` spaces.
#[verifier::loop_isolation(false)]
fn space_string(n: usize) -> (r: String)
    ensures
        r@ == spaces(n as nat),
{
    let mut out = String::new();
    proof {
        reveal_strlit(" ");
    }
    let mut i: usize = 0;
    while i < n
        invariant
            i <= n,
            out@ =~= spaces(n as nat).take(i as int),
        decreases n - i,
    {
        out.append(" ");
        proof {
            assert(out@ =~= spaces(n as nat).take(i as int + 1));
        }
        i = i + 1;
    }
    assert(spaces(n as nat).take(n as int) =~= spaces(n as nat));
    out
}

/// The full text of one rendered call line: indentation, tag, label,
/// signature, the optional revert reason and error each with its marker,
/// and the gas used.
pub open spec fn line_text_spec(m: CallLineModel) -> Seq<char> {
    spaces(m.indent) + m.tag + " "@ + m.label.text + " "@ + m.signature + (match m.revert_reason {
        Some(rr) => " Revert: "@ + rr,
        None => Seq::empty(),
    }) + (match m.error {
        Some(e) => " Error: "@ + e,
        None => Seq::empty(),
    }) + " "@ + dec_of(m.gas as nat)
}

impl RenderedCall {
    /// Assembles the line's full text.
    pub fn text(&self) -> (r: String)
        ensures
            r@ == line_text_spec(self@),
    {
        let mut out = space_string(self.indent);
        out.append(self.tag.as_str());
        out.append(" ");
        out.append(self.label.text.as_str());
        out.append(" ");
        out.append(self.signature.as_str());
        match &self.revert_reason {
            Some(rr) => {
                out.append(" Revert: ");
                out.append(rr.as_str());
            },
            None => {},
        }
        match &self.error {
            Some(e) => {
                out.append(" Error: ");
                out.append(e.as_str());
            },
            None => {},
        }
        out.append(" ");
        let g = dec_string(self.gas);
        out.append(g.as_str());
        assert(out@ =~= line_text_spec(self@));
        out
    }
}

/// Indentation strictly increases with depth, whether or not nodes in
/// between are visible: a node's own line (when shown) sits exactly at its
/// `padding`, and every line of its descendants sits at least two deeper.
pub proof fn lemma_indentation_increases(
    n: CallTraceNode,
    padding: nat,
    dir: Seq<KnownAddress>,
    mode: ShowCalls,
    resolve: bool,
    answers: Seq<ResolvedNameModel>,
)
    ensures
        visible_spec(classify_spec(dir, n.to@), mode) ==> render_call_spec(
            n,
            padding,
            dir,
            mode,
            resolve,
            answers,
        ).len() >= 1 && render_call_spec(n, padding, dir, mode, resolve, answers)[0].indent
            == padding,
        forall|i: int|
            (if visible_spec(classify_spec(dir, n.to@), mode) {
                1int
            } else {
                0int
            }) <= i < render_call_spec(n, padding, dir, mode, resolve, answers).len()
                ==> #[trigger] render_call_spec(n, padding, dir, mode, resolve, answers)[i].indent
                >= padding + 2,
    decreases n,
{
    let r = render_call_spec(n, padding, dir, mode, resolve, answers);
    let rest = render_children_spec(n.children@, padding + 2, dir, mode, resolve, answers);
    lemma_indentation_children(n.children@, padding + 2, dir, mode, resolve, answers);
    if visible_spec(classify_spec(dir, n.to@), mode) {
        let own = seq![line_model_spec(n, padding, dir, resolve, answers)];
        assert(r =~= own + rest);
        assert forall|i: int| 1 <= i < r.len() implies #[trigger] r[i].indent >= padding + 2 by {
            assert(r[i] == rest[i - 1]);
        }
    } else {
        assert(r =~= rest);
        assert forall|i: int| 0 <= i < r.len() implies #[trigger] r[i].indent >= padding + 2 by {
            assert(r[i] == rest[i]);
        }
    }
}

/// Every line rendered for a sequence of sibling subtrees sits at least at
/// the siblings' own `padding`.
pub proof fn lemma_indentation_children(
    ns: Seq<CallTraceNode>,
    padding: nat,
    dir: Seq<KnownAddress>,
    mode: ShowCalls,
    resolve: bool,
    answers: Seq<ResolvedNameModel>,
)
    ensures
        forall|i: int|
            0 <= i < render_children_spec(ns, padding, dir, mode, resolve, answers).len()
                ==> #[trigger] render_children_spec(ns, padding, dir, mode, resolve, answers)[
                i
            ].indent >= padding,
    decreases ns,
{
    if ns.len() > 0 {
        let r = render_children_spec(ns, padding, dir, mode, resolve, answers);
        let first = render_call_spec(ns[0], padding, dir, mode, resolve, answers);
        let rest = render_children_spec(ns.drop_first(), padding, dir, mode, resolve, answers);
        lemma_indentation_increases(ns[0], padding, dir, mode, resolve, answers);
        lemma_indentation_children(ns.drop_first(), padding, dir, mode, resolve, answers);
        assert forall|i: int| 0 <= i < r.len() implies #[trigger] r[i].indent >= padding by {
            if i < first.len() {
                assert(r[i] == first[i]);
            } else {
                assert(r[i] == rest[i - first.len()]);
            }
        }
    }
}

/// A resolver that always fails changes nothing: rendering with resolution
/// enabled but no answer for any selector equals rendering with resolution
/// disabled, for the same tree.
pub proof fn lemma_failed_resolution_matches_disabled(
    n: CallTraceNode,
    padding: nat,
    dir: Seq<KnownAddress>,
    mode: ShowCalls,
    answers: Seq<ResolvedNameModel>,
)
    requires
        forall|sel: Seq<u8>| lookup_spec(answers, sel) is None,
    ensures
        render_call_spec(n, padding, dir, mode, true, answers) == render_call_spec(
            n,
            padding,
            dir,
            mode,
            false,
            answers,
        ),
    decreases n,
{
    assert(lookup_spec(answers, n.input@.take(4)) is None);
    assert(line_model_spec(n, padding, dir, true, answers) == line_model_spec(
        n,
        padding,
        dir,
        false,
        answers,
    ));
    lemma_failed_resolution_matches_disabled_children(
        n.children@,
        padding + 2,
        dir,
        mode,
        answers,
    );
    assert(render_call_spec(n, padding, dir, mode, true, answers) =~= render_call_spec(
        n,
        padding,
        dir,
        mode,
        false,
        answers,
    ));
}

/// The sibling-sequence side of `lemma_failed_resolution_matches_disabled`.
pub proof fn lemma_failed_resolution_matches_disabled_children(
    ns: Seq<CallTraceNode>,
    padding: nat,
    dir: Seq<KnownAddress>,
    mode: ShowCalls,
    answers: Seq<ResolvedNameModel>,
)
    requires
        forall|sel: Seq<u8>| lookup_spec(answers, sel) is None,
    ensures
        render_children_spec(ns, padding, dir, mode, true, answers) == render_children_spec(
            ns,
            padding,
            dir,
            mode,
            false,
            answers,
        ),
    decreases ns,
{
    if ns.len() > 0 {
        lemma_failed_resolution_matches_disabled(ns[0], padding, dir, mode, answers);
        lemma_failed_resolution_matches_disabled_children(
            ns.drop_first(),
            padding,
            dir,
            mode,
            answers,
        );
    }
}

/// With resolution disabled the answers play no part: rendering is the
/// same whatever map is handed in.
pub proof fn lemma_disabled_ignores_answers(
    n: CallTraceNode,
    padding: nat,
    dir: Seq<KnownAddress>,
    mode: ShowCalls,
    a1: Seq<ResolvedNameModel>,
    a2: Seq<ResolvedNameModel>,
)
    ensures
        render_call_spec(n, padding, dir, mode, false, a1) == render_call_spec(
            n,
            padding,
            dir,
            mode,
            false,
            a2,
        ),
    decreases n,
{
    assert(line_model_spec(n, padding, dir, false, a1) == line_model_spec(
        n,
        padding,
        dir,
        false,
        a2,
    ));
    lemma_disabled_ignores_answers_children(n.children@, padding + 2, dir, mode, a1, a2);
    assert(render_call_spec(n, padding, dir, mode, false, a1) =~= render_call_spec(
        n,
        padding,
        dir,
        mode,
        false,
        a2,
    ));
}

/// The sibling-sequence side of `lemma_disabled_ignores_answers`.
pub proof fn lemma_disabled_ignores_answers_children(
    ns: Seq<CallTraceNode>,
    padding: nat,
    dir: Seq<KnownAddress>,
    mode: ShowCalls,
    a1: Seq<ResolvedNameModel>,
    a2: Seq<ResolvedNameModel>,
)
    ensures
        render_children_spec(ns, padding, dir, mode, false, a1) == render_children_spec(
            ns,
            padding,
            dir,
            mode,
            false,
            a2,
        ),
    decreases ns,
{
    if ns.len() > 0 {
        lemma_disabled_ignores_answers(ns[0], padding, dir, mode, a1, a2);
        lemma_disabled_ignores_answers_children(ns.drop_first(), padding, dir, mode, a1, a2);
    }
}

} // verus!

