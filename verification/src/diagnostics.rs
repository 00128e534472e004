//! Findings and the reporter that collects them. A diagnostic is immutable
//! once created; the reporter owns an append-only collection for one analysis
//! run over one compilation unit.

use vstd::prelude::*;
use crate::ir::Span;

verus! {

/// Identifies the analysis that produced a finding.
#[derive(Clone, Copy, PartialEq, Eq, Structural, Debug)]
pub enum DetectorKind {
    Reentrancy,
    DosUnboundedOperation,
    SetStorageWarn,
    UnexpectedRevertWarn,
}

/// One finding: which detector fired and where in the source.
#[derive(Clone, Copy, PartialEq, Eq, Structural, Debug)]
pub struct Diagnostic {
    pub detector: DetectorKind,
    pub span: Span,
}

impl DetectorKind {
    /// The registered identifier of the analysis.
    pub fn name(&self) -> (m: &'static str)
        ensures
            m@ == spec_name(*self),
    {
        match self {
            DetectorKind::Reentrancy => "REENTRANCY",
            DetectorKind::DosUnboundedOperation => "DOS_UNBOUNDED_OPERATION",
            DetectorKind::SetStorageWarn => "SET_STORAGE_WARN",
            DetectorKind::UnexpectedRevertWarn => "UNEXPECTED_REVERT_WARN",
        }
    }
}

/// The registered identifier of the given detector.
pub open spec fn spec_name(k: DetectorKind) -> Seq<char> {
    match k {
        DetectorKind::Reentrancy => "REENTRANCY"@,
        DetectorKind::DosUnboundedOperation => "DOS_UNBOUNDED_OPERATION"@,
        DetectorKind::SetStorageWarn => "SET_STORAGE_WARN"@,
        DetectorKind::UnexpectedRevertWarn => "UNEXPECTED_REVERT_WARN"@,
    }
}

/// The rationale shown for a finding of the given detector.
pub open spec fn spec_message(k: DetectorKind) -> Seq<char> {
    match k {
        DetectorKind::Reentrancy => "External calls could open the opportunity for a malicious contract to execute any arbitrary code"@,
        DetectorKind::DosUnboundedOperation => "In order to prevent a single transaction from consuming all the gas in a block, unbounded operations must be avoided"@,
        DetectorKind::SetStorageWarn => "Arbitrary users should not have control over keys because it implies writing any value of a mapping, lazy variable, or the main struct of the contract located in position 0 of the storage"@,
        DetectorKind::UnexpectedRevertWarn => "Arbitrary users should not be able to push to a vector, otherwise it could lead to a DoS attack"@,
    }
}

/// The remediation hint shown for a finding of the given detector.
pub open spec fn spec_help(k: DetectorKind) -> Seq<char> {
    match k {
        DetectorKind::Reentrancy => "This statement seems to call another contract after the flag set_allow_reentry was enabled"@,
        DetectorKind::DosUnboundedOperation => "This loop seems to not have a fixed number of iterations"@,
        DetectorKind::SetStorageWarn => "Set access control and proper authorization validation for the set_contract_storage() function"@,
        DetectorKind::UnexpectedRevertWarn => "Set access control and proper authorization validation for pushing to a vector or change to a mapping"@,
    }
}

impl Diagnostic {
    /// The human-readable rationale for this finding.
    pub fn message(&self) -> (m: &'static str)
        ensures
            m@ == spec_message(self.detector),
    {
        match self.detector {
            DetectorKind::Reentrancy => "External calls could open the opportunity for a malicious contract to execute any arbitrary code",
            DetectorKind::DosUnboundedOperation => "In order to prevent a single transaction from consuming all the gas in a block, unbounded operations must be avoided",
            DetectorKind::SetStorageWarn => "Arbitrary users should not have control over keys because it implies writing any value of a mapping, lazy variable, or the main struct of the contract located in position 0 of the storage",
            DetectorKind::UnexpectedRevertWarn => "Arbitrary users should not be able to push to a vector, otherwise it could lead to a DoS attack",
        }
    }

    /// The remediation hint for this finding.
    pub fn help(&self) -> (m: &'static str)
        ensures
            m@ == spec_help(self.detector),
    {
        match self.detector {
            DetectorKind::Reentrancy => "This statement seems to call another contract after the flag set_allow_reentry was enabled",
            DetectorKind::DosUnboundedOperation => "This loop seems to not have a fixed number of iterations",
            DetectorKind::SetStorageWarn => "Set access control and proper authorization validation for the set_contract_storage() function",
            DetectorKind::UnexpectedRevertWarn => "Set access control and proper authorization validation for pushing to a vector or change to a mapping",
        }
    }

    /// Every finding has the same single severity; there is no gradient.
    pub fn severity(&self) -> (m: &'static str)
        ensures
            m@ == "warn"@,
    {
        "warn"
    }
}

/// Collects the diagnostics of one analysis run, in emission order.
pub struct Reporter {
    diags: Vec<Diagnostic>,
}

impl View for Reporter {
    type V = Seq<Diagnostic>;

    closed spec fn view(&self) -> Seq<Diagnostic> {
        self.diags@
    }
}

impl Reporter {
    /// An empty reporter for a fresh analysis run.
    pub fn new() -> (r: Reporter)
        ensures
            r@ == Seq::<Diagnostic>::empty(),
    {
        Reporter { diags: Vec::new() }
    }

    /// Append one finding.
    pub fn report(&mut self, d: Diagnostic)
        ensures
            final(self)@ == old(self)@.push(d),
    {
        self.diags.push(d);
    }

    /// How many findings have been collected.
    pub fn len(&self) -> (n: usize)
        ensures
            n == self@.len(),
    {
        self.diags.len()
    }

    /// The `i`-th finding, in emission order.
    pub fn get(&self, i: usize) -> (d: Diagnostic)
        requires
            i < self@.len(),
        ensures
            d == self@[i as int],
    {
        self.diags[i]
    }
}

} // verus!
