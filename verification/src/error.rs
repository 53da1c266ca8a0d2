//! Error types of the solver stack: classified operator errors, linear algebra
//! errors and non-linear solver errors.
//!
//! An [`OperatorError`] keeps the error that a user-provided operator returned
//! as its `source`, together with a classification that tells the solvers
//! whether a different trial point may succeed.  The source type is a type
//! parameter: the library only carries it through, and callers that want a
//! type-erased source instantiate it with a shared trait object.
use vstd::prelude::*;

verus! {

/// Declares faer's sparse-matrix creation error so that [`MatrixError`] can carry it.
#[verifier::external_type_specification]
#[verifier::external_body]
pub struct ExCreationError(faer::sparse::CreationError);

/// faer derives `Clone` (together with `Copy`) for its creation error, so a
/// clone is an exact copy of the value.
pub assume_specification[ <faer::sparse::CreationError as core::clone::Clone>::clone ](
    e: &faer::sparse::CreationError,
) -> (r: faer::sparse::CreationError)
    ensures
        r == *e,
;

/// Classification applied to an error returned by a user-provided operator.
#[derive(Clone, Copy, Debug, PartialEq, Eq, Structural)]
pub enum OperatorErrorKind {
    /// The current trial point was invalid, but a different point may succeed.
    Recoverable,
    /// Continuing the solve cannot correct the failure.
    Fatal,
}

impl OperatorErrorKind {
    /// The word that names this classification in messages.
    pub open spec fn label(self) -> Seq<char> {
        match self {
            OperatorErrorKind::Recoverable => "recoverable"@,
            OperatorErrorKind::Fatal => "fatal"@,
        }
    }

    /// Returns the word that names this classification ("recoverable" or "fatal").
    pub fn as_str(&self) -> (s: &'static str)
        ensures
            s@ == self.label(),
    {
        match self {
            OperatorErrorKind::Recoverable => "recoverable",
            OperatorErrorKind::Fatal => "fatal",
        }
    }
}

/// A classified error returned by a user-provided operator.
///
/// The error that the operator returned is retained as `source`, so callers can recover their
/// concrete error after the value has travelled through the solvers.
#[derive(Clone, Debug)]
pub struct OperatorError<S> {
    kind: OperatorErrorKind,
    source: S,
}

impl<S> OperatorError<S> {
    /// The classification of this error.
    pub closed spec fn spec_kind(self) -> OperatorErrorKind {
        self.kind
    }

    /// The error that the operator returned.
    pub closed spec fn spec_source(self) -> S {
        self.source
    }

    /// Whether a retry at a different trial point may succeed.
    pub open spec fn is_recoverable(self) -> bool {
        self.spec_kind() == OperatorErrorKind::Recoverable
    }

    /// Construct an error for a trial point that may succeed after retrying.
    pub fn recoverable(error: S) -> (e: Self)
        ensures
            e.spec_kind() == OperatorErrorKind::Recoverable,
            e.spec_source() == error,
    {
        OperatorError { kind: OperatorErrorKind::Recoverable, source: error }
    }

    /// Construct an error that must terminate the solve.
    pub fn fatal(error: S) -> (e: Self)
        ensures
            e.spec_kind() == OperatorErrorKind::Fatal,
            e.spec_source() == error,
    {
        OperatorError { kind: OperatorErrorKind::Fatal, source: error }
    }

    /// Return the error's retry classification.
    pub fn kind(&self) -> (k: OperatorErrorKind)
        ensures
            k == self.spec_kind(),
    {
        self.kind
    }

    /// Return the error that the operator returned.
    pub fn source(&self) -> (s: &S)
        ensures
            *s == self.spec_source(),
    {
        &self.source
    }

    /// Consume this error and return the error that the operator returned.
    pub fn into_source(self) -> (s: S)
        ensures
            s == self.spec_source(),
    {
        self.source
    }
}

/// Possible errors that can occur when solving a linear problem.
#[derive(Debug, Clone)]
pub enum LinearSolverError {
    LuNotInitialized,
    LuSolveFailed,
    LinearSolverNotSetup,
    LinearSolverMatrixNotSquare,
    LinearSolverMatrixVectorNotCompatible,
    KluFailedToAnalyze,
    KluFailedToFactorize,
    Other(String),
}

/// Possible errors for matrix operations.
#[derive(Debug, Clone)]
pub enum MatrixError {
    FailedToCreateMatrixFromTriplets(faer::sparse::CreationError),
    UnionIncompatibleShapes,
    MatrixShapeError,
    IndexOutOfBounds,
    Other(String),
}

/// Possible errors of the GPU backend.
#[derive(Debug, Clone)]
pub enum CudaError {
    CudaMemoryAllocationError,
    CudaInitializationError(String),
    Other(String),
}

/// Error type of the linear algebra layer: matrix operations, linear
/// solvers and user operators.
#[derive(Debug, Clone)]
pub enum LaError<S> {
    OperatorError(OperatorError<S>),
    LinearSolverError(LinearSolverError),
    MatrixError(MatrixError),
    CudaError(CudaError),
    Other(String),
}

impl<S> LaError<S> {
    /// The user-operator error retained by this error, if any.
    pub open spec fn spec_operator_error(self) -> Option<OperatorError<S>> {
        match self {
            LaError::OperatorError(e) => Some(e),
            _ => None,
        }
    }

    /// Return the user-operator error retained by this error, if any.
    pub fn operator_error(&self) -> (r: Option<&OperatorError<S>>)
        ensures
            r matches Some(e) ==> self.spec_operator_error() == Some(*e),
            r is None ==> self.spec_operator_error() is None,
    {
        match self {
            LaError::OperatorError(error) => Some(error),
            _ => None,
        }
    }
}

/// Possible errors that can occur when solving a non-linear problem.
#[derive(Debug, Clone)]
pub enum NonLinearSolverError {
    InitialConditionDidNotConverge,
    NewtonMaxIterations,
    NewtonDiverged,
    LinesearchFailedMaxIterations,
    LinesearchFailedMinStep,
    LuSolveFailed,
    JacobianNotReset,
    WrongStateLength { expected: usize, found: usize },
    Other(String),
}

/// Error type of the non-linear solver layer, which also carries the
/// linear algebra errors of the linear solvers underneath.
#[derive(Debug, Clone)]
pub enum NlError<S> {
    NonLinearSolverError(NonLinearSolverError),
    LaError(LaError<S>),
    Other(String),
}

impl<S> NlError<S> {
    /// The user-operator error retained by this error, if any.
    pub open spec fn spec_operator_error(self) -> Option<OperatorError<S>> {
        match self {
            NlError::LaError(LaError::OperatorError(e)) => Some(e),
            _ => None,
        }
    }

    /// Whether this error is a user-operator error classified as recoverable.
    pub open spec fn is_recoverable_operator_error(self) -> bool {
        match self.spec_operator_error() {
            Some(e) => e.is_recoverable(),
            None => false,
        }
    }

    /// Wrap a user-operator error as a non-linear solver error.
    pub fn from_operator_error(error: OperatorError<S>) -> (e: Self)
        ensures
            e == NlError::LaError(LaError::OperatorError(error)),
            e.spec_operator_error() == Some(error),
    {
        NlError::LaError(LaError::OperatorError(error))
    }

    /// Return the user-operator error retained by this error, if any.
    pub fn operator_error(&self) -> (r: Option<&OperatorError<S>>)
        ensures
            r matches Some(e) ==> self.spec_operator_error() == Some(*e),
            r is None ==> self.spec_operator_error() is None,
    {
        match self {
            NlError::LaError(LaError::OperatorError(error)) => Some(error),
            _ => None,
        }
    }

    /// Whether this error is a user-operator error classified as recoverable.
    pub fn is_recoverable(&self) -> (b: bool)
        ensures
            b == self.is_recoverable_operator_error(),
    {
        match self.operator_error() {
            Some(error) => match error.kind() {
                OperatorErrorKind::Recoverable => true,
                OperatorErrorKind::Fatal => false,
            },
            None => false,
        }
    }
}

impl<S> From<OperatorError<S>> for NlError<S> {
    fn from(error: OperatorError<S>) -> (e: Self) {
        NlError::LaError(LaError::OperatorError(error))
    }
}

impl<S> vstd::std_specs::convert::FromSpecImpl<OperatorError<S>> for NlError<S> {
    open spec fn obeys_from_spec() -> bool {
        true
    }

    open spec fn from_spec(error: OperatorError<S>) -> NlError<S> {
        NlError::LaError(LaError::OperatorError(error))
    }
}

impl<S> From<OperatorError<S>> for LaError<S> {
    fn from(error: OperatorError<S>) -> (e: Self) {
        LaError::OperatorError(error)
    }
}

impl<S> vstd::std_specs::convert::FromSpecImpl<OperatorError<S>> for LaError<S> {
    open spec fn obeys_from_spec() -> bool {
        true
    }

    open spec fn from_spec(error: OperatorError<S>) -> LaError<S> {
        LaError::OperatorError(error)
    }
}

impl<S> From<LinearSolverError> for LaError<S> {
    fn from(error: LinearSolverError) -> (e: Self) {
        LaError::LinearSolverError(error)
    }
}

impl<S> vstd::std_specs::convert::FromSpecImpl<LinearSolverError> for LaError<S> {
    open spec fn obeys_from_spec() -> bool {
        true
    }

    open spec fn from_spec(error: LinearSolverError) -> LaError<S> {
        LaError::LinearSolverError(error)
    }
}

impl<S> From<MatrixError> for LaError<S> {
    fn from(error: MatrixError) -> (e: Self) {
        LaError::MatrixError(error)
    }
}

impl<S> vstd::std_specs::convert::FromSpecImpl<MatrixError> for LaError<S> {
    open spec fn obeys_from_spec() -> bool {
        true
    }

    open spec fn from_spec(error: MatrixError) -> LaError<S> {
        LaError::MatrixError(error)
    }
}

impl<S> From<CudaError> for LaError<S> {
    fn from(error: CudaError) -> (e: Self) {
        LaError::CudaError(error)
    }
}

impl<S> vstd::std_specs::convert::FromSpecImpl<CudaError> for LaError<S> {
    open spec fn obeys_from_spec() -> bool {
        true
    }

    open spec fn from_spec(error: CudaError) -> LaError<S> {
        LaError::CudaError(error)
    }
}

impl<S> From<NonLinearSolverError> for NlError<S> {
    fn from(error: NonLinearSolverError) -> (e: Self) {
        NlError::NonLinearSolverError(error)
    }
}

impl<S> vstd::std_specs::convert::FromSpecImpl<NonLinearSolverError> for NlError<S> {
    open spec fn obeys_from_spec() -> bool {
        true
    }

    open spec fn from_spec(error: NonLinearSolverError) -> NlError<S> {
        NlError::NonLinearSolverError(error)
    }
}

impl<S> From<LaError<S>> for NlError<S> {
    fn from(error: LaError<S>) -> (e: Self) {
        NlError::LaError(error)
    }
}

impl<S> vstd::std_specs::convert::FromSpecImpl<LaError<S>> for NlError<S> {
    open spec fn obeys_from_spec() -> bool {
        true
    }

    open spec fn from_spec(error: LaError<S>) -> NlError<S> {
        NlError::LaError(error)
    }
}

impl From<faer::sparse::CreationError> for MatrixError {
    fn from(error: faer::sparse::CreationError) -> (e: Self) {
        MatrixError::FailedToCreateMatrixFromTriplets(error)
    }
}

impl vstd::std_specs::convert::FromSpecImpl<faer::sparse::CreationError> for MatrixError {
    open spec fn obeys_from_spec() -> bool {
        true
    }

    open spec fn from_spec(error: faer::sparse::CreationError) -> MatrixError {
        MatrixError::FailedToCreateMatrixFromTriplets(error)
    }
}

/// An error of the non-linear layer counts as recoverable exactly when it
/// carries a user-operator error classified as recoverable; the errors of
/// the solvers themselves never do.
pub proof fn lemma_recoverable_means_recoverable_operator_error<S>(e: NlError<S>)
    ensures
        e.is_recoverable_operator_error() <==> (e matches NlError::LaError(LaError::OperatorError(op))
            && op.spec_kind() == OperatorErrorKind::Recoverable),
        e is NonLinearSolverError ==> !e.is_recoverable_operator_error(),
        e is Other ==> !e.is_recoverable_operator_error(),
{
}

} // verus!
