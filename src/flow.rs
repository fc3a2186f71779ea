use vstd::prelude::*;

verus! {

/// The API operations whose transactions this core labels.
#[derive(Clone, Copy, Debug, PartialEq, Eq, Structural)]
pub enum Flow {
    MandatesRetrieve,
    MandatesRevoke,
    MandatesList,
    CustomersGetMandates,
    PaymentsRedirect,
    DisputesRetrieve,
    AttachDisputeEvidence,
    RetrievePollStatus,
    CreateFile,
    RetrieveFile,
    CreateConfigKey,
    ConfigKeyFetch,
    ConfigKeyUpdate,
}

/// The stable metric and event label of each operation.
pub open spec fn flow_name(f: Flow) -> Seq<char> {
    match f {
        Flow::MandatesRetrieve => "MandatesRetrieve"@,
        Flow::MandatesRevoke => "MandatesRevoke"@,
        Flow::MandatesList => "MandatesList"@,
        Flow::CustomersGetMandates => "CustomersGetMandates"@,
        Flow::PaymentsRedirect => "PaymentsRedirect"@,
        Flow::DisputesRetrieve => "DisputesRetrieve"@,
        Flow::AttachDisputeEvidence => "AttachDisputeEvidence"@,
        Flow::RetrievePollStatus => "RetrievePollStatus"@,
        Flow::CreateFile => "CreateFile"@,
        Flow::RetrieveFile => "RetrieveFile"@,
        Flow::CreateConfigKey => "CreateConfigKey"@,
        Flow::ConfigKeyFetch => "ConfigKeyFetch"@,
        Flow::ConfigKeyUpdate => "ConfigKeyUpdate"@,
    }
}

impl Flow {
    /// The operation's stable name.
    pub fn name(&self) -> (r: String)
        ensures
            r@ == flow_name(*self),
    {
        match self {
            Flow::MandatesRetrieve => "MandatesRetrieve".to_owned(),
            Flow::MandatesRevoke => "MandatesRevoke".to_owned(),
            Flow::MandatesList => "MandatesList".to_owned(),
            Flow::CustomersGetMandates => "CustomersGetMandates".to_owned(),
            Flow::PaymentsRedirect => "PaymentsRedirect".to_owned(),
            Flow::DisputesRetrieve => "DisputesRetrieve".to_owned(),
            Flow::AttachDisputeEvidence => "AttachDisputeEvidence".to_owned(),
            Flow::RetrievePollStatus => "RetrievePollStatus".to_owned(),
            Flow::CreateFile => "CreateFile".to_owned(),
            Flow::RetrieveFile => "RetrieveFile".to_owned(),
            Flow::CreateConfigKey => "CreateConfigKey".to_owned(),
            Flow::ConfigKeyFetch => "ConfigKeyFetch".to_owned(),
            Flow::ConfigKeyUpdate => "ConfigKeyUpdate".to_owned(),
        }
    }
}

} // verus!
