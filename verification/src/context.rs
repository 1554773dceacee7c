//! Contexts that can be cancelled, can expire, and pass irrecoverable errors to their root.
use std::sync::Arc;
use tokio::time::Instant;
use tokio_util::sync::CancellationToken;
use vstd::prelude::*;

verus! {

/// The cancellation token of the `tokio-util` crate: a handle to a node of a tree that is
/// shared between tasks. Nothing is known of what it holds.
#[verifier::external_type_specification]
#[verifier::external_body]
pub struct ExCancellationToken(CancellationToken);

/// The clock reading of the `tokio` crate. Nothing is known of what it holds.
#[verifier::external_type_specification]
#[verifier::external_body]
pub struct ExInstant(Instant);

/// The tokens from which a token descends by calls of `CancellationToken::child_token`, the
/// one that it was made from first.
pub uninterp spec fn token_ancestors(token: CancellationToken) -> Seq<CancellationToken>;

/// `CancellationToken::new` makes a token that is not cancelled and has no parent. The
/// latter alone is claimed: whether a token is cancelled changes behind shared references.
pub assume_specification[ CancellationToken::new ]() -> (r: CancellationToken)
    ensures
        token_ancestors(r) == Seq::<CancellationToken>::empty(),
;

/// Whether `child` was made from `parent`.
pub open spec fn is_child_token(child: CancellationToken, parent: CancellationToken) -> bool {
    token_ancestors(child) == seq![parent] + token_ancestors(parent)
}

/// `CancellationToken::child_token` makes a token that is cancelled whenever this one is.
/// All that is claimed is which token it was made from. Whether it is cancelled changes
/// behind shared references.
pub assume_specification[ CancellationToken::child_token ](
    token: &CancellationToken,
) -> (r: CancellationToken)
    ensures
        is_child_token(r, *token),
;

/// `CancellationToken::cancel` cancels a token and its descendants. Nothing is claimed of
/// it: what it changes lies behind a shared reference.
pub assume_specification[ CancellationToken::cancel ](token: &CancellationToken)
;

/// `CancellationToken::is_cancelled` says whether a token is cancelled by now. Nothing is
/// claimed of the answer: any task may cancel the token at any time.
pub assume_specification[ CancellationToken::is_cancelled ](token: &CancellationToken) -> bool
;

/// `CancellationToken::clone` makes another handle to the same node of the tree. The two
/// handles are claimed to be one value, since each stands for that node: cancelling
/// through one is cancelling through the other.
pub assume_specification[ <CancellationToken as Clone>::clone ](
    token: &CancellationToken,
) -> (r: CancellationToken)
    ensures
        r == *token,
;

/// `Instant::now` reads the clock. Nothing is claimed of the reading.
pub assume_specification[ Instant::now ]() -> Instant
;

/// `Instant::elapsed`, in nanoseconds: how long ago a clock reading was taken. Nothing is
/// claimed of the number, which depends on when the function is called.
#[verifier::external_body]
fn nanos_since(start: &Instant) -> (r: u128) {
    start.elapsed().as_nanos()
}

/// Whether the clock can report that `elapsed` nanoseconds have passed since `start`.
pub closed spec fn is_time_since(start: Instant, elapsed: u128) -> bool {
    call_ensures(nanos_since, (&start,), elapsed)
}

/// Whether `cancelled` is an answer of a token that is asked whether it is cancelled.
pub open spec fn is_answer_of(token: CancellationToken, cancelled: bool) -> bool {
    call_ensures(CancellationToken::is_cancelled, (&token,), cancelled)
}

/// Why a context is unusable.
#[derive(Copy, Clone, PartialEq, Eq, Debug, Structural)]
pub enum ContextError {
    /// The context or one of its ancestors was cancelled.
    Cancelled,
    /// The deadline of the context has passed.
    DeadlineExceeded,
}

impl ContextError {
    /// The text under which the error is reported.
    pub open spec fn text(self) -> Seq<char> {
        match self {
            ContextError::Cancelled => "context cancelled"@,
            ContextError::DeadlineExceeded => "context deadline exceeded"@,
        }
    }

    /// Returns the text under which the error is reported.
    pub fn as_str(self) -> (r: &'static str)
        ensures
            r@ == self.text(),
    {
        match self {
            ContextError::Cancelled => "context cancelled",
            ContextError::DeadlineExceeded => "context deadline exceeded",
        }
    }
}

/// How the race between an operation, a deadline and a cancellation ended.
#[derive(PartialEq, Eq, Debug)]
pub enum Race<R> {
    /// The operation finished first.
    Finished(R),
    /// The deadline passed first.
    DeadlinePassed,
    /// The context was cancelled first.
    Cancelled,
}

/// Whether a deadline, in nanoseconds after a start, has been reached `elapsed`
/// nanoseconds after it.
pub open spec fn deadline_reached(deadline: Option<u128>, elapsed: u128) -> bool {
    deadline matches Some(limit) && elapsed >= limit
}

/// Why a context is unusable, given whether it is cancelled and whether its deadline has
/// been reached. Cancellation is reported first.
pub open spec fn unusable(cancelled: bool, expired: bool) -> Option<ContextError> {
    if cancelled {
        Some(ContextError::Cancelled)
    } else if expired {
        Some(ContextError::DeadlineExceeded)
    } else {
        None
    }
}

/// The time left until a deadline, if there is one.
pub open spec fn time_left(deadline: Option<u128>, elapsed: u128) -> Option<u128> {
    match deadline {
        Some(limit) => Some(
            if elapsed >= limit {
                0
            } else {
                (limit - elapsed) as u128
            },
        ),
        None => None,
    }
}

/// How long an operation may take that begins now, or why it may not begin.
pub open spec fn run_limit(deadline: Option<u128>, cancelled: bool, elapsed: u128) -> Result<
    Option<u128>,
    ContextError,
> {
    match unusable(cancelled, deadline_reached(deadline, elapsed)) {
        Some(e) => Err(e),
        None => Ok(time_left(deadline, elapsed)),
    }
}

/// Whether a deadline has been reached.
pub fn is_deadline_reached(deadline: Option<u128>, elapsed: u128) -> (r: bool)
    ensures
        r == deadline_reached(deadline, elapsed),
{
    match deadline {
        Some(limit) => elapsed >= limit,
        None => false,
    }
}

/// Says why a context is unusable, if it is.
pub fn why_unusable(cancelled: bool, expired: bool) -> (r: Option<ContextError>)
    ensures
        r == unusable(cancelled, expired),
{
    if cancelled {
        Some(ContextError::Cancelled)
    } else if expired {
        Some(ContextError::DeadlineExceeded)
    } else {
        None
    }
}

/// Computes the time left until a deadline.
pub fn remaining(deadline: Option<u128>, elapsed: u128) -> (r: Option<u128>)
    ensures
        r == time_left(deadline, elapsed),
{
    match deadline {
        Some(limit) => {
            if elapsed >= limit {
                Some(0)
            } else {
                Some(limit - elapsed)
            }
        },
        None => None,
    }
}

/// Decides whether an operation may begin and, if so, how long it may take.
pub fn limit_run(deadline: Option<u128>, cancelled: bool, elapsed: u128) -> (r: Result<
    Option<u128>,
    ContextError,
>)
    ensures
        r == run_limit(deadline, cancelled, elapsed),
{
    match why_unusable(cancelled, is_deadline_reached(deadline, elapsed)) {
        Some(e) => Err(e),
        None => Ok(remaining(deadline, elapsed)),
    }
}

/// Turns how a race ended into the result of the operation that took part in it.
pub fn race_result<R>(race: Race<R>) -> (r: Result<R, ContextError>)
    ensures
        r == match race {
            Race::Finished(result) => Ok::<R, ContextError>(result),
            Race::DeadlinePassed => Err(ContextError::DeadlineExceeded),
            Race::Cancelled => Err(ContextError::Cancelled),
        },
{
    match race {
        Race::Finished(result) => Ok(result),
        Race::DeadlinePassed => Err(ContextError::DeadlineExceeded),
        Race::Cancelled => Err(ContextError::Cancelled),
    }
}

/// Returns the text with which an irrecoverable error ends the program.
pub fn irrecoverable_message(err: &str) -> (r: String)
    ensures
        r@ == "irrecoverable error: "@ + err@,
{
    "irrecoverable error: ".to_owned().concat(err)
}

/// A context for work that can be cancelled and can expire. Contexts form trees: a child
/// is cancelled with its parent and has its parent's deadline.
pub struct IrrevocableContext {
    inner: Arc<ContextInner>,
}

struct ContextInner {
    token: CancellationToken,
    start: Instant,
    deadline: Option<u128>,
    parent: Option<IrrevocableContext>,
}

impl IrrevocableContext {
    /// The deadline, in nanoseconds after the root of the context was created.
    pub closed spec fn spec_deadline(self) -> Option<u128> {
        self.inner.deadline
    }

    /// The context of which this is a child.
    pub closed spec fn spec_parent(self) -> Option<IrrevocableContext> {
        self.inner.parent
    }

    /// The token that cancels the context.
    pub closed spec fn spec_token(self) -> CancellationToken {
        self.inner.token
    }

    /// The clock reading from which the deadline is counted.
    pub closed spec fn spec_start(self) -> Instant {
        self.inner.start
    }

    /// The context at the top of the tree.
    pub closed spec fn spec_root(self) -> IrrevocableContext
        decreases self,
    {
        match self.inner.parent {
            Some(parent) => parent.spec_root(),
            None => self,
        }
    }

    /// Whether, from this context up to the root, the token of every child was made from
    /// the token of its parent, and the token of the root from none.
    #[verifier::type_invariant]
    pub closed spec fn tokens_follow(self) -> bool
        decreases self,
    {
        match self.inner.parent {
            Some(parent) => {
                &&& is_child_token(self.inner.token, parent.inner.token)
                &&& parent.tokens_follow()
            },
            None => token_ancestors(self.inner.token) == Seq::<CancellationToken>::empty(),
        }
    }

    /// Whether this context is `ancestor` or descends from it.
    pub closed spec fn descends_from(self, ancestor: IrrevocableContext) -> bool
        decreases self,
    {
        self == ancestor || match self.inner.parent {
            Some(parent) => parent.descends_from(ancestor),
            None => false,
        }
    }

    /// Creates a root context that does not expire.
    pub fn new() -> (r: IrrevocableContext)
        ensures
            r.spec_deadline() is None,
            r.spec_parent() is None,
            call_ensures(Instant::now, (), r.spec_start()),
            r.tokens_follow(),
    {
        IrrevocableContext {
            inner: Arc::new(
                ContextInner {
                    token: CancellationToken::new(),
                    start: Instant::now(),
                    deadline: None,
                    parent: None,
                },
            ),
        }
    }

    /// Creates a root context that expires after `timeout` nanoseconds.
    pub fn with_timeout(timeout: u128) -> (r: IrrevocableContext)
        ensures
            r.spec_deadline() == Some(timeout),
            r.spec_parent() is None,
            call_ensures(Instant::now, (), r.spec_start()),
            r.tokens_follow(),
    {
        IrrevocableContext {
            inner: Arc::new(
                ContextInner {
                    token: CancellationToken::new(),
                    start: Instant::now(),
                    deadline: Some(timeout),
                    parent: None,
                },
            ),
        }
    }

    /// Creates a child context, which inherits cancellation and deadline.
    pub fn child(&self) -> (r: IrrevocableContext)
        ensures
            r.spec_deadline() == self.spec_deadline(),
            r.spec_start() == self.spec_start(),
            r.spec_parent() == Some(*self),
            is_child_token(r.spec_token(), self.spec_token()),
            r.descends_from(*self),
            forall|ancestor: IrrevocableContext|
                self.descends_from(ancestor) ==> #[trigger] r.descends_from(ancestor),
            self.tokens_follow(),
            r.tokens_follow(),
    {
        proof {
            use_type_invariant(self);
            reveal_with_fuel(IrrevocableContext::descends_from, 2);
        }
        IrrevocableContext {
            inner: Arc::new(
                ContextInner {
                    token: self.inner.token.child_token(),
                    start: self.inner.start,
                    deadline: self.inner.deadline,
                    parent: Some(self.clone()),
                },
            ),
        }
    }

    /// Cancels this context and its descendants: it cancels the token of this context. What
    /// that changes lies behind shared references, so no later state is stated here.
    pub fn cancel(&self)
        ensures
            call_ensures(CancellationToken::cancel, (&self.spec_token(),), ()),
    {
        self.inner.token.cancel();
    }

    /// Whether the context is cancelled by now, which is what its own token says. Any holder
    /// of the context or of an ancestor may have cancelled it.
    pub fn is_cancelled(&self) -> (r: bool)
        ensures
            is_answer_of(self.spec_token(), r),
    {
        self.inner.token.is_cancelled()
    }

    /// Returns the token through which the cancellation of this context can be awaited.
    pub fn token(&self) -> (r: &CancellationToken)
        ensures
            *r == self.spec_token(),
    {
        &self.inner.token
    }

    /// Returns the clock reading from which deadlines of this tree are counted.
    pub fn start(&self) -> (r: Instant)
        ensures
            r == self.spec_start(),
    {
        self.inner.start
    }

    /// Returns the deadline, in nanoseconds after the root was created, if there is one.
    pub fn deadline(&self) -> (r: Option<u128>)
        ensures
            r == self.spec_deadline(),
    {
        self.inner.deadline
    }

    /// Whether the context has a deadline that has passed by now.
    pub fn is_deadline_exceeded(&self) -> (r: bool)
        ensures
            exists|elapsed: u128|
                {
                    &&& is_time_since(self.spec_start(), elapsed)
                    &&& r == #[trigger] deadline_reached(self.spec_deadline(), elapsed)
                },
            self.spec_deadline() is None ==> !r,
    {
        let elapsed = nanos_since(&self.inner.start);
        is_deadline_reached(self.inner.deadline, elapsed)
    }

    /// Says why the context is unusable by now, if it is.
    pub fn err(&self) -> (r: Option<ContextError>)
        ensures
            exists|cancelled: bool, elapsed: u128|
                {
                    &&& is_answer_of(self.spec_token(), cancelled)
                    &&& is_time_since(self.spec_start(), elapsed)
                    &&& r == #[trigger] unusable(
                        cancelled,
                        deadline_reached(self.spec_deadline(), elapsed),
                    )
                },
            self.spec_deadline() is None ==> r != Some(ContextError::DeadlineExceeded),
    {
        let cancelled = self.is_cancelled();
        let elapsed = nanos_since(&self.inner.start);
        let expired = is_deadline_reached(self.inner.deadline, elapsed);
        let r = why_unusable(cancelled, expired);
        assert(r == unusable(cancelled, deadline_reached(self.spec_deadline(), elapsed)));
        r
    }

    /// Begins to run an operation: refuses when the context is unusable already, so that an
    /// operation that is ready at once cannot slip through, and otherwise says how long
    /// the operation may take, in nanoseconds, if there is a limit.
    pub fn begin_run(&self) -> (r: Result<Option<u128>, ContextError>)
        ensures
            exists|cancelled: bool, elapsed: u128|
                {
                    &&& is_answer_of(self.spec_token(), cancelled)
                    &&& is_time_since(self.spec_start(), elapsed)
                    &&& r == #[trigger] run_limit(self.spec_deadline(), cancelled, elapsed)
                },
            self.spec_deadline() is None ==> r == Ok::<Option<u128>, ContextError>(None) || r
                == Err::<Option<u128>, ContextError>(ContextError::Cancelled),
    {
        let cancelled = self.is_cancelled();
        let elapsed = nanos_since(&self.inner.start);
        limit_run(self.inner.deadline, cancelled, elapsed)
    }

    /// Creates a child context together with the means to cancel it.
    pub fn with_cancel(&self) -> (r: (IrrevocableContext, CancelHandle))
        ensures
            r.0.spec_deadline() == self.spec_deadline(),
            r.0.spec_start() == self.spec_start(),
            r.0.spec_parent() == Some(*self),
            is_child_token(r.0.spec_token(), self.spec_token()),
            r.0.descends_from(*self),
            forall|ancestor: IrrevocableContext|
                self.descends_from(ancestor) ==> #[trigger] r.0.descends_from(ancestor),
            self.tokens_follow(),
            r.0.tokens_follow(),
            r.1.spec_token() == r.0.spec_token(),
    {
        let child = self.child();
        let token = child.inner.token.clone();
        (child, CancelHandle { token })
    }

    /// Returns the context of which this is a child, if it is one.
    pub fn parent(&self) -> (r: Option<&IrrevocableContext>)
        ensures
            match r {
                Some(parent) => {
                    &&& self.spec_parent() == Some(*parent)
                    &&& self.descends_from(*parent)
                    &&& parent.tokens_follow()
                },
                None => self.spec_parent() is None,
            },
            self.tokens_follow(),
    {
        proof {
            use_type_invariant(self);
            reveal_with_fuel(IrrevocableContext::descends_from, 2);
        }
        match &self.inner.parent {
            Some(parent) => Some(parent),
            None => None,
        }
    }

    /// Returns the root of the tree, where an irrecoverable error ends the program.
    pub fn root(&self) -> (r: &IrrevocableContext)
        ensures
            *r == self.spec_root(),
            self.descends_from(*r),
            self.tokens_follow(),
            r.tokens_follow(),
        decreases self,
    {
        proof {
            use_type_invariant(self);
        }
        match &self.inner.parent {
            Some(parent) => parent.root(),
            None => self,
        }
    }
}

/// A shallow clone: both handles stand for one context.
impl Clone for IrrevocableContext {
    fn clone(&self) -> (r: IrrevocableContext)
        ensures
            r == *self,
            r.tokens_follow(),
    {
        proof {
            use_type_invariant(self);
        }
        IrrevocableContext { inner: self.inner.clone() }
    }
}

/// The authority to cancel one context. It can be cloned and sent to other tasks.
pub struct CancelHandle {
    token: CancellationToken,
}

/// Both handles cancel the same context.
impl Clone for CancelHandle {
    fn clone(&self) -> (r: CancelHandle)
        ensures
            r == *self,
    {
        CancelHandle { token: self.token.clone() }
    }
}

impl CancelHandle {
    /// The token of the context that the handle cancels.
    pub closed spec fn spec_token(self) -> CancellationToken {
        self.token
    }

    /// Cancels the context for which the handle was made: it cancels the token of that
    /// context.
    pub fn cancel(&self)
        ensures
            call_ensures(CancellationToken::cancel, (&self.spec_token(),), ()),
    {
        self.token.cancel();
    }
}

/// An irrecoverable error thrown in any context comes to the root of its tree: the root
/// has no parent, and a context without a parent is its own root.
pub proof fn law_errors_reach_the_root(context: IrrevocableContext)
    ensures
        context.spec_root().spec_parent() is None,
        match context.spec_parent() {
            Some(parent) => context.spec_root() == parent.spec_root(),
            None => context.spec_root() == context,
        },
    decreases context,
{
    match context.inner.parent {
        Some(parent) => law_errors_reach_the_root(parent),
        None => {},
    }
}

/// Whether a token is cancelled once `CancellationToken::cancel` has run on the tokens
/// `calls`: it has run on this token, or on one from which this token descends. That tokens
/// behave so is what the `tokio-util` crate documents. It is not proved here, and no
/// contract draws the answers of `CancellationToken::is_cancelled` from it.
pub open spec fn cancelled_by(
    calls: Set<CancellationToken>,
    token: CancellationToken,
) -> bool {
    calls.contains(token) || exists|i: int|
        0 <= i < token_ancestors(token).len() && calls.contains(#[trigger] token_ancestors(token)[i])
}

/// Every context descends from itself and from its parent, and whatever an ancestor
/// descends from, the context descends from too.
pub proof fn law_descent_is_a_preorder(
    context: IrrevocableContext,
    ancestor: IrrevocableContext,
    higher: IrrevocableContext,
)
    ensures
        context.descends_from(context),
        context.spec_parent() matches Some(parent) ==> context.descends_from(parent),
        context.descends_from(ancestor) && ancestor.descends_from(higher)
            ==> context.descends_from(higher),
    decreases context,
{
    reveal_with_fuel(IrrevocableContext::descends_from, 2);
    if let Some(parent) = context.inner.parent {
        law_descent_is_a_preorder(parent, ancestor, higher);
    }
}

/// A token is cancelled when the one that it was made from is, or when it is cancelled
/// itself.
proof fn lemma_child_token_is_cancelled_with_its_parent(
    calls: Set<CancellationToken>,
    child: CancellationToken,
    parent: CancellationToken,
)
    requires
        is_child_token(child, parent),
    ensures
        cancelled_by(calls, child) <==> calls.contains(child) || cancelled_by(calls, parent),
{
    if cancelled_by(calls, parent) {
        if calls.contains(parent) {
            assert(token_ancestors(child)[0] == parent);
        } else {
            let i = choose|i: int|
                0 <= i < token_ancestors(parent).len() && calls.contains(
                    #[trigger] token_ancestors(parent)[i],
                );
            assert(token_ancestors(child)[i + 1] == token_ancestors(parent)[i]);
        }
    }
    if cancelled_by(calls, child) && !calls.contains(child) {
        let i = choose|i: int|
            0 <= i < token_ancestors(child).len() && calls.contains(
                #[trigger] token_ancestors(child)[i],
            );
        if i > 0 {
            assert(token_ancestors(parent)[i - 1] == token_ancestors(child)[i]);
        }
    }
}

/// Every token from which the token of a context descends has fewer ancestors than it.
proof fn lemma_ancestors_are_shallower(context: IrrevocableContext, i: int)
    requires
        context.tokens_follow(),
        0 <= i < token_ancestors(context.spec_token()).len(),
    ensures
        token_ancestors(token_ancestors(context.spec_token())[i]).len() < token_ancestors(
            context.spec_token(),
        ).len(),
    decreases context,
{
    if let Some(parent) = context.inner.parent {
        if i > 0 {
            lemma_ancestors_are_shallower(parent, i - 1);
        }
    }
}

/// Cancelling a context cancels it and all its descendants.
pub proof fn law_cancellation_reaches_descendants(
    context: IrrevocableContext,
    ancestor: IrrevocableContext,
    calls: Set<CancellationToken>,
)
    requires
        context.tokens_follow(),
        context.descends_from(ancestor),
        calls.contains(ancestor.spec_token()),
    ensures
        cancelled_by(calls, context.spec_token()),
    decreases context,
{
    if context != ancestor {
        if let Some(parent) = context.inner.parent {
            law_cancellation_reaches_descendants(parent, ancestor, calls);
            lemma_child_token_is_cancelled_with_its_parent(
                calls,
                context.spec_token(),
                parent.spec_token(),
            );
        }
    }
}

/// A context is cancelled by nothing else: it or one of its ancestors was cancelled.
pub proof fn law_cancellation_comes_from_an_ancestor(
    context: IrrevocableContext,
    calls: Set<CancellationToken>,
) -> (ancestor: IrrevocableContext)
    requires
        context.tokens_follow(),
        cancelled_by(calls, context.spec_token()),
    ensures
        context.descends_from(ancestor),
        calls.contains(ancestor.spec_token()),
    decreases context,
{
    if calls.contains(context.spec_token()) {
        context
    } else {
        match context.inner.parent {
            Some(parent) => {
                lemma_child_token_is_cancelled_with_its_parent(
                    calls,
                    context.spec_token(),
                    parent.spec_token(),
                );
                law_cancellation_comes_from_an_ancestor(parent, calls)
            },
            None => context,
        }
    }
}

/// A child that nobody has cancelled itself is cancelled exactly when its parent is.
/// Cancelling the parent cancels the child, and cancelling the child leaves the parent,
/// and all from which the parent descends, as they were. The child has the deadline of
/// its parent, counted from the same start, as [`IrrevocableContext::child`] states.
pub proof fn law_child_is_cancelled_with_its_parent(
    parent: IrrevocableContext,
    child: IrrevocableContext,
    calls: Set<CancellationToken>,
    ancestor: IrrevocableContext,
)
    requires
        child.tokens_follow(),
        child.spec_parent() == Some(parent),
        parent.descends_from(ancestor),
    ensures
        !calls.contains(child.spec_token()) ==> (cancelled_by(calls, child.spec_token())
            <==> cancelled_by(calls, parent.spec_token())),
        cancelled_by(calls.insert(parent.spec_token()), child.spec_token()),
        cancelled_by(calls.insert(child.spec_token()), child.spec_token()),
        cancelled_by(calls.insert(child.spec_token()), ancestor.spec_token()) <==> cancelled_by(
            calls,
            ancestor.spec_token(),
        ),
{
    lemma_child_token_is_cancelled_with_its_parent(calls, child.spec_token(), parent.spec_token());
    lemma_child_token_is_cancelled_with_its_parent(
        calls.insert(parent.spec_token()),
        child.spec_token(),
        parent.spec_token(),
    );
    lemma_descent_is_upward(parent, ancestor);
    let after = calls.insert(child.spec_token());
    let above = token_ancestors(ancestor.spec_token());
    assert forall|i: int| 0 <= i < above.len() implies after.contains(#[trigger] above[i])
        == calls.contains(above[i]) by {
        lemma_ancestors_are_shallower(ancestor, i);
    }
    if cancelled_by(calls, ancestor.spec_token()) && !calls.contains(ancestor.spec_token()) {
        let i = choose|i: int| 0 <= i < above.len() && calls.contains(#[trigger] above[i]);
        assert(after.contains(above[i]));
    }
    if cancelled_by(after, ancestor.spec_token()) && !after.contains(ancestor.spec_token()) {
        let i = choose|i: int| 0 <= i < above.len() && after.contains(#[trigger] above[i]);
        assert(calls.contains(above[i]));
    }
}

/// The ancestors of a context are no deeper than it, and their tokens follow too.
proof fn lemma_descent_is_upward(context: IrrevocableContext, ancestor: IrrevocableContext)
    requires
        context.tokens_follow(),
        context.descends_from(ancestor),
    ensures
        ancestor.tokens_follow(),
        token_ancestors(ancestor.spec_token()).len() <= token_ancestors(
            context.spec_token(),
        ).len(),
    decreases context,
{
    if context != ancestor {
        if let Some(parent) = context.inner.parent {
            lemma_descent_is_upward(parent, ancestor);
        }
    }
}

/// A cancelled context stays cancelled, whatever is cancelled later, and cancelling a
/// context a second time changes nothing.
pub proof fn law_cancellation_is_irrevocable(
    context: IrrevocableContext,
    calls: Set<CancellationToken>,
    later: Set<CancellationToken>,
)
    requires
        calls.subset_of(later),
    ensures
        cancelled_by(calls, context.spec_token()) ==> cancelled_by(later, context.spec_token()),
        calls.insert(context.spec_token()).insert(context.spec_token()) == calls.insert(
            context.spec_token(),
        ),
{
    let above = token_ancestors(context.spec_token());
    if cancelled_by(calls, context.spec_token()) && !calls.contains(context.spec_token()) {
        let i = choose|i: int| 0 <= i < above.len() && calls.contains(#[trigger] above[i]);
        assert(later.contains(above[i]));
    }
}

/// Cancelling a token that belongs to no context from which `other` descends leaves `other`
/// as it was.
pub proof fn law_cancellation_leaves_others_alone(
    other: IrrevocableContext,
    token: CancellationToken,
    calls: Set<CancellationToken>,
)
    requires
        other.tokens_follow(),
        forall|ancestor: IrrevocableContext| #[trigger]
            other.descends_from(ancestor) ==> ancestor.spec_token() != token,
    ensures
        cancelled_by(calls.insert(token), other.spec_token()) <==> cancelled_by(
            calls,
            other.spec_token(),
        ),
{
    let after = calls.insert(token);
    if cancelled_by(after, other.spec_token()) {
        let ancestor = law_cancellation_comes_from_an_ancestor(other, after);
        law_cancellation_reaches_descendants(other, ancestor, calls);
    }
    law_cancellation_is_irrevocable(other, calls, after);
}

/// Whether `contexts` are contexts as they are created: each one has its parent among them,
/// if it has one, the token of each was made from that of its parent, and no two of them
/// share a token.
pub open spec fn is_forest(contexts: Set<IrrevocableContext>) -> bool {
    &&& forall|context: IrrevocableContext| #[trigger]
        contexts.contains(context) ==> {
            &&& context.tokens_follow()
            &&& context.spec_parent() matches Some(parent) ==> contexts.contains(parent)
        }
    &&& forall|a: IrrevocableContext, b: IrrevocableContext|
        #![trigger contexts.contains(a), contexts.contains(b)]
        contexts.contains(a) && contexts.contains(b) && a.spec_token() == b.spec_token() ==> a
            == b
}

/// All from which a context of a forest descends is in the forest.
proof fn lemma_forest_holds_the_ancestors(
    contexts: Set<IrrevocableContext>,
    context: IrrevocableContext,
    ancestor: IrrevocableContext,
)
    requires
        is_forest(contexts),
        contexts.contains(context),
        context.descends_from(ancestor),
    ensures
        contexts.contains(ancestor),
    decreases context,
{
    if context != ancestor {
        if let Some(parent) = context.inner.parent {
            lemma_forest_holds_the_ancestors(contexts, parent, ancestor);
        }
    }
}

/// Anywhere in a forest of contexts, cancelling one of them cancels exactly itself and its
/// descendants: an ancestor, a sibling or an unrelated context is cancelled afterwards only
/// if it was before.
pub proof fn law_cancel_reaches_exactly_the_descendants(
    contexts: Set<IrrevocableContext>,
    context: IrrevocableContext,
    other: IrrevocableContext,
    calls: Set<CancellationToken>,
)
    requires
        is_forest(contexts),
        contexts.contains(context),
        contexts.contains(other),
    ensures
        cancelled_by(calls.insert(context.spec_token()), other.spec_token()) <==> cancelled_by(
            calls,
            other.spec_token(),
        ) || other.descends_from(context),
{
    let after = calls.insert(context.spec_token());
    if other.descends_from(context) {
        law_cancellation_reaches_descendants(other, context, after);
    } else {
        assert forall|ancestor: IrrevocableContext| #[trigger]
            other.descends_from(ancestor) implies ancestor.spec_token()
            != context.spec_token() by {
            lemma_forest_holds_the_ancestors(contexts, other, ancestor);
        }
        law_cancellation_leaves_others_alone(other, context.spec_token(), calls);
    }
}

/// Cancelling a context leaves its siblings as they were.
pub proof fn law_siblings_are_cancelled_apart(
    parent: IrrevocableContext,
    context: IrrevocableContext,
    sibling: IrrevocableContext,
    calls: Set<CancellationToken>,
)
    requires
        context.tokens_follow(),
        sibling.tokens_follow(),
        context.spec_parent() == Some(parent),
        sibling.spec_parent() == Some(parent),
        context.spec_token() != sibling.spec_token(),
    ensures
        cancelled_by(calls.insert(context.spec_token()), sibling.spec_token()) <==> cancelled_by(
            calls,
            sibling.spec_token(),
        ),
{
    assert forall|ancestor: IrrevocableContext| #[trigger]
        sibling.descends_from(ancestor) implies ancestor.spec_token()
        != context.spec_token() by {
        if ancestor != sibling {
            lemma_descent_is_upward(parent, ancestor);
        }
    }
    law_cancellation_leaves_others_alone(sibling, context.spec_token(), calls);
}

/// A handle and its clones cancel the context that they were made for, and leave its parent
/// as it was. While its parent is not cancelled, a context stays uncancelled until the
/// handle, a clone of it or the context itself cancels the token that they share.
pub proof fn law_handle_cancels_its_context_alone(
    parent: IrrevocableContext,
    child: IrrevocableContext,
    handle: CancelHandle,
    calls: Set<CancellationToken>,
)
    requires
        child.tokens_follow(),
        child.spec_parent() == Some(parent),
        handle.spec_token() == child.spec_token(),
        !cancelled_by(calls, parent.spec_token()),
    ensures
        !calls.contains(handle.spec_token()) ==> !cancelled_by(calls, child.spec_token()),
        cancelled_by(calls.insert(handle.spec_token()), child.spec_token()),
        !cancelled_by(calls.insert(handle.spec_token()), parent.spec_token()),
{
    law_child_is_cancelled_with_its_parent(parent, child, calls, parent);
}

/// A deadline, once reached, stays reached, and no time is left from then on. A context
/// without a deadline never expires.
pub proof fn law_deadlines_are_irrevocable(deadline: Option<u128>, elapsed: u128, later: u128)
    requires
        elapsed <= later,
    ensures
        deadline_reached(deadline, elapsed) ==> deadline_reached(deadline, later),
        deadline_reached(deadline, elapsed) <==> time_left(deadline, elapsed) == Some(0u128),
        deadline is None ==> !deadline_reached(deadline, elapsed),
{
}

/// An operation that may begin is granted some time, up to the deadline and no further.
pub proof fn law_granted_time_ends_at_the_deadline(
    deadline: Option<u128>,
    cancelled: bool,
    elapsed: u128,
)
    ensures
        run_limit(deadline, cancelled, elapsed) matches Ok(Some(left)) ==> left > 0
            && deadline == Some((elapsed + left) as u128) && elapsed + left <= u128::MAX,
        run_limit(deadline, cancelled, elapsed) matches Ok(None) ==> deadline is None,
{
}

/// A context is unusable exactly when it is cancelled or expired, and a cancelled context
/// is reported as cancelled even when its deadline has passed too.
pub proof fn law_cancellation_is_reported_first(cancelled: bool, expired: bool)
    ensures
        unusable(cancelled, expired) is Some <==> cancelled || expired,
        cancelled ==> unusable(cancelled, expired) == Some(ContextError::Cancelled),
        unusable(cancelled, expired) == Some(ContextError::DeadlineExceeded) ==> !cancelled,
{
}

/// A deadline has been reached from the nanosecond on at which it lies. Until then the time
/// left and the time passed make up the deadline, and from then on no time is left.
pub proof fn law_time_left_runs_to_the_deadline(
    deadline: Option<u128>,
    elapsed: u128,
    reached: bool,
    left: Option<u128>,
)
    requires
        call_ensures(is_deadline_reached, (deadline, elapsed), reached),
        call_ensures(remaining, (deadline, elapsed), left),
    ensures
        match deadline {
            Some(limit) => {
                &&& reached <==> limit <= elapsed
                &&& left matches Some(time) && if limit <= elapsed {
                    time == 0
                } else {
                    elapsed + time == limit
                }
            },
            None => !reached && left is None,
        },
{
}

/// A context is reported as cancelled exactly when it is, as expired exactly when it is
/// expired and not cancelled, and as usable otherwise. An operation begins exactly on a
/// usable context, with the time until the deadline.
pub proof fn law_operations_begin_on_usable_contexts(
    deadline: Option<u128>,
    cancelled: bool,
    elapsed: u128,
    why: Option<ContextError>,
    limit: Result<Option<u128>, ContextError>,
)
    requires
        call_ensures(
            why_unusable,
            (cancelled, deadline is Some && deadline->0 <= elapsed),
            why,
        ),
        call_ensures(limit_run, (deadline, cancelled, elapsed), limit),
    ensures
        why == Some(ContextError::Cancelled) <==> cancelled,
        why == Some(ContextError::DeadlineExceeded) <==> !cancelled && deadline is Some
            && deadline->0 <= elapsed,
        match limit {
            Ok(left) => {
                &&& why is None
                &&& deadline is None ==> left is None
                &&& deadline is Some ==> (left is Some && elapsed + left->0 == deadline->0)
            },
            Err(e) => why == Some(e),
        },
{
}

/// Whoever finishes a race first decides its result: the operation gives what it returned,
/// the deadline and the cancellation give their errors.
pub proof fn law_race_is_decided_by_who_finishes_first<R>(
    race: Race<R>,
    r: Result<R, ContextError>,
)
    requires
        call_ensures(race_result::<R>, (race,), r),
    ensures
        match race {
            Race::Finished(result) => r matches Ok(got) && got == result,
            Race::DeadlinePassed => r matches Err(ContextError::DeadlineExceeded),
            Race::Cancelled => r matches Err(ContextError::Cancelled),
        },
{
}

/// An irrecoverable error is reported in full, behind words that say what it is.
pub proof fn law_irrecoverable_message_ends_with_the_error(err: &str, r: String)
    requires
        call_ensures(irrecoverable_message, (err,), r),
    ensures
        r@.len() == "irrecoverable error: "@.len() + err@.len(),
        r@.take("irrecoverable error: "@.len() as int) == "irrecoverable error: "@,
        r@.skip("irrecoverable error: "@.len() as int) == err@,
{
    assert(r@.take("irrecoverable error: "@.len() as int) =~= "irrecoverable error: "@);
    assert(r@.skip("irrecoverable error: "@.len() as int) =~= err@);
}

/// A context made with a timeout has that deadline, one made without has none, and so have
/// all contexts made from them, counted from the same start. The parent of such a context is
/// the one that it was made from, and their root is the same.
pub proof fn law_contexts_inherit_the_deadline(
    timeout: u128,
    timed: IrrevocableContext,
    endless: IrrevocableContext,
    parent: IrrevocableContext,
    child: IrrevocableContext,
    with_handle: (IrrevocableContext, CancelHandle),
    parent_deadline: Option<u128>,
    child_deadline: Option<u128>,
    parent_start: Instant,
    child_start: Instant,
    above: Option<&IrrevocableContext>,
)
    requires
        call_ensures(IrrevocableContext::with_timeout, (timeout,), timed),
        call_ensures(IrrevocableContext::new, (), endless),
        call_ensures(IrrevocableContext::child, (&parent,), child) || {
            &&& call_ensures(IrrevocableContext::with_cancel, (&parent,), with_handle)
            &&& with_handle.0 == child
        },
        call_ensures(IrrevocableContext::deadline, (&parent,), parent_deadline),
        call_ensures(IrrevocableContext::deadline, (&child,), child_deadline),
        call_ensures(IrrevocableContext::start, (&parent,), parent_start),
        call_ensures(IrrevocableContext::start, (&child,), child_start),
        call_ensures(IrrevocableContext::parent, (&child,), above),
    ensures
        parent == timed ==> parent_deadline == Some(timeout),
        parent == endless ==> parent_deadline is None,
        child_deadline == parent_deadline,
        child_start == parent_start,
        above matches Some(context) && *context == parent,
        timed.spec_parent() is None,
        endless.spec_parent() is None,
        child.spec_root() == parent.spec_root(),
{
    law_errors_reach_the_root(child);
}

/// The time since a start is what the clock reports of that very start.
proof fn law_time_is_read_from_the_clock(start: Instant, elapsed: u128)
    requires
        is_time_since(start, elapsed),
    ensures
        call_ensures(nanos_since, (&start,), elapsed),
{
}

/// What a context reports of itself is what its token answers and what the clock says, and
/// nothing else.
pub proof fn law_context_reports_its_token_and_its_clock(
    context: IrrevocableContext,
    expired: bool,
    why: Option<ContextError>,
    limit: Result<Option<u128>, ContextError>,
)
    requires
        call_ensures(IrrevocableContext::is_deadline_exceeded, (&context,), expired),
        call_ensures(IrrevocableContext::err, (&context,), why),
        call_ensures(IrrevocableContext::begin_run, (&context,), limit),
    ensures
        exists|elapsed: u128| #[trigger]
            is_time_since(context.spec_start(), elapsed) && (expired <==> match
                context.spec_deadline() {
                Some(end) => end <= elapsed,
                None => false,
            }),
        why == Some(ContextError::Cancelled) || limit == Err::<Option<u128>, ContextError>(
            ContextError::Cancelled,
        ) ==> is_answer_of(context.spec_token(), true),
        why is None || why == Some(ContextError::DeadlineExceeded) || limit is Ok ==> is_answer_of(
            context.spec_token(),
            false,
        ),
        why == Some(ContextError::DeadlineExceeded) ==> exists|elapsed: u128| #[trigger]
            is_time_since(context.spec_start(), elapsed) && context.spec_deadline() is Some
                && context.spec_deadline()->0 <= elapsed,
        limit matches Ok(Some(left)) ==> exists|elapsed: u128| #[trigger]
            is_time_since(context.spec_start(), elapsed) && context.spec_deadline() is Some
                && elapsed + left == context.spec_deadline()->0,
        limit matches Ok(None) ==> context.spec_deadline() is None,
{
    let elapsed = choose|elapsed: u128|
        {
            &&& is_time_since(context.spec_start(), elapsed)
            &&& expired == #[trigger] deadline_reached(context.spec_deadline(), elapsed)
        };
    assert(is_time_since(context.spec_start(), elapsed));
    let (cancelled, at) = choose|cancelled: bool, elapsed: u128|
        {
            &&& is_answer_of(context.spec_token(), cancelled)
            &&& is_time_since(context.spec_start(), elapsed)
            &&& why == #[trigger] unusable(
                cancelled,
                deadline_reached(context.spec_deadline(), elapsed),
            )
        };
    assert(is_time_since(context.spec_start(), at));
    let (asked, begun) = choose|cancelled: bool, elapsed: u128|
        {
            &&& is_answer_of(context.spec_token(), cancelled)
            &&& is_time_since(context.spec_start(), elapsed)
            &&& limit == #[trigger] run_limit(context.spec_deadline(), cancelled, elapsed)
        };
    assert(is_time_since(context.spec_start(), begun));
}

/// Cancelling a context, or using the handle that was made with it or a clone of that
/// handle, cancels the token of that very context, and asking a context asks that token. The
/// root of a context has no parent and is the root of its parent too.
pub proof fn law_contexts_act_on_their_own_token(
    parent: IrrevocableContext,
    made: (IrrevocableContext, CancelHandle),
    spare: CancelHandle,
    copy: IrrevocableContext,
    cancelled: bool,
    token: &CancellationToken,
    root: &IrrevocableContext,
)
    requires
        call_ensures(IrrevocableContext::with_cancel, (&parent,), made),
        call_ensures(CancelHandle::clone, (&made.1,), spare),
        call_ensures(IrrevocableContext::clone, (&made.0,), copy),
        call_ensures(IrrevocableContext::is_cancelled, (&made.0,), cancelled),
        call_ensures(IrrevocableContext::token, (&made.0,), token),
        call_ensures(IrrevocableContext::root, (&made.0,), root),
    ensures
        is_child_token(*token, parent.spec_token()),
        call_ensures(CancellationToken::is_cancelled, (token,), cancelled),
        call_ensures(IrrevocableContext::cancel, (&copy,), ()) || call_ensures(
            CancelHandle::cancel,
            (&made.1,),
            (),
        ) || call_ensures(CancelHandle::cancel, (&spare,), ()) ==> call_ensures(
            CancellationToken::cancel,
            (token,),
            (),
        ),
        root.spec_parent() is None,
        *root == parent.spec_root(),
{
    law_errors_reach_the_root(made.0);
}

} // verus!
