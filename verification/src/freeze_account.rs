//! The ledger transaction template that freezes a deposit account: it moves
//! the account's settled balance to the frozen-accounts account. The
//! template is described here as plain data; registering it with the ledger
//! is done by the caller.

use vstd::prelude::*;

use crate::decimal::Dec;
use crate::primitives::{CalaAccountId, EntityId};
use crate::repayment_plan::EffectiveDate;

verus! {

/// The code under which the template is registered.
pub const FREEZE_ACCOUNT_CODE: &'static str = "FREEZE_ACCOUNT";

/// The type of a template parameter.
#[derive(Clone, Copy, Debug, PartialEq, Eq, Structural)]
pub enum ParamDataType {
    Uuid,
    String,
    Decimal,
    Date,
}

/// A parameter the template expects.
#[derive(Debug)]
pub struct NewParamDefinition {
    pub name: String,
    pub data_type: ParamDataType,
}

/// The transaction part of a template: each field is an expression over the
/// parameters.
#[derive(Debug)]
pub struct NewTxTemplateTransaction {
    pub journal_id: String,
    pub description: String,
    pub effective: String,
}

/// One entry of a template: each field is an expression over the parameters.
#[derive(Debug)]
pub struct NewTxTemplateEntry {
    pub entry_type: String,
    pub currency: String,
    pub account_id: String,
    pub direction: String,
    pub layer: String,
    pub units: String,
}

/// A transaction template.
#[derive(Debug)]
pub struct NewTxTemplate {
    pub id: EntityId,
    pub code: String,
    pub transaction: NewTxTemplateTransaction,
    pub entries: Vec<NewTxTemplateEntry>,
    pub params: Vec<NewParamDefinition>,
}

/// A value handed to the template for one of its parameters.
#[derive(Debug)]
pub enum ParamValue {
    Uuid(EntityId),
    String(String),
    Decimal(Dec),
    Date(EffectiveDate),
}

/// What freezing an account needs.
#[derive(Debug)]
pub struct FreezeAccountParams {
    pub journal_id: EntityId,
    pub account_id: CalaAccountId,
    pub frozen_accounts_account_id: CalaAccountId,
    pub amount: Dec,
    pub currency: String,
}

pub open spec fn param_is(p: NewParamDefinition, name: Seq<char>, data_type: ParamDataType) -> bool {
    p.name@ == name && p.data_type == data_type
}

fn param(name: &str, data_type: ParamDataType) -> (p: NewParamDefinition)
    ensures
        param_is(p, name@, data_type),
{
    NewParamDefinition { name: name.to_owned(), data_type }
}

impl FreezeAccountParams {
    /// The parameters of the template, in this order: the journal, the
    /// currency, the amount, the frozen account, the frozen-accounts account
    /// and the effective date.
    pub fn defs() -> (defs: Vec<NewParamDefinition>)
        ensures
            defs@.len() == 6,
            param_is(defs@[0], "journal_id"@, ParamDataType::Uuid),
            param_is(defs@[1], "currency"@, ParamDataType::String),
            param_is(defs@[2], "amount"@, ParamDataType::Decimal),
            param_is(defs@[3], "account_id"@, ParamDataType::Uuid),
            param_is(defs@[4], "frozen_accounts_account_id"@, ParamDataType::Uuid),
            param_is(defs@[5], "effective"@, ParamDataType::Date),
    {
        let mut defs = Vec::new();
        defs.push(param("journal_id", ParamDataType::Uuid));
        defs.push(param("currency", ParamDataType::String));
        defs.push(param("amount", ParamDataType::Decimal));
        defs.push(param("account_id", ParamDataType::Uuid));
        defs.push(param("frozen_accounts_account_id", ParamDataType::Uuid));
        defs.push(param("effective", ParamDataType::Date));
        defs
    }

    /// The values of the parameters, named as in `defs`, with the given
    /// effective date.
    pub fn into_params(self, effective: EffectiveDate) -> (params: Vec<(String, ParamValue)>)
        ensures
            params@.len() == 6,
            params@[0].0@ == "journal_id"@ && params@[0].1 == ParamValue::Uuid(self.journal_id),
            params@[1].0@ == "currency"@ && (params@[1].1 matches ParamValue::String(c)
                && c@ == self.currency@),
            params@[2].0@ == "amount"@ && params@[2].1 == ParamValue::Decimal(self.amount),
            params@[3].0@ == "account_id"@ && params@[3].1 == ParamValue::Uuid(self.account_id),
            params@[4].0@ == "frozen_accounts_account_id"@ && params@[4].1 == ParamValue::Uuid(
                self.frozen_accounts_account_id,
            ),
            params@[5].0@ == "effective"@ && params@[5].1 == ParamValue::Date(effective),
    {
        let mut params = Vec::new();
        params.push(("journal_id".to_owned(), ParamValue::Uuid(self.journal_id)));
        params.push(("currency".to_owned(), ParamValue::String(self.currency)));
        params.push(("amount".to_owned(), ParamValue::Decimal(self.amount)));
        params.push(("account_id".to_owned(), ParamValue::Uuid(self.account_id)));
        params.push(
            (
                "frozen_accounts_account_id".to_owned(),
                ParamValue::Uuid(self.frozen_accounts_account_id),
            ),
        );
        params.push(("effective".to_owned(), ParamValue::Date(effective)));
        params
    }
}

pub open spec fn entry_is(
    e: NewTxTemplateEntry,
    entry_type: Seq<char>,
    account_id: Seq<char>,
    direction: Seq<char>,
) -> bool {
    &&& e.entry_type@ == entry_type
    &&& e.currency@ == "params.currency"@
    &&& e.account_id@ == account_id
    &&& e.direction@ == direction
    &&& e.layer@ == "SETTLED"@
    &&& e.units@ == "params.amount"@
}

fn entry(entry_type: &str, account_id: &str, direction: &str) -> (e: NewTxTemplateEntry)
    ensures
        entry_is(e, entry_type@, account_id@, direction@),
{
    NewTxTemplateEntry {
        entry_type: entry_type.to_owned(),
        currency: "params.currency".to_owned(),
        account_id: account_id.to_owned(),
        direction: direction.to_owned(),
        layer: "SETTLED".to_owned(),
        units: "params.amount".to_owned(),
    }
}

/// The template that freezes a deposit account.
pub struct FreezeAccount;

impl FreezeAccount {
    /// The template, under a fresh id: it debits the frozen account and
    /// credits the frozen-accounts account with the amount, on the settled
    /// layer, in the given journal and currency, on the effective date.
    pub fn template() -> (t: NewTxTemplate)
        ensures
            t.code@ == FREEZE_ACCOUNT_CODE@,
            t.transaction.journal_id@ == "params.journal_id"@,
            t.transaction.description@ == "'Freeze a deposit account'"@,
            t.transaction.effective@ == "params.effective"@,
            t.entries@.len() == 2,
            entry_is(t.entries@[0], "'FREEZE_ACCOUNT_DR'"@, "params.account_id"@, "DEBIT"@),
            entry_is(
                t.entries@[1],
                "'FREEZE_ACCOUNT_CR'"@,
                "params.frozen_accounts_account_id"@,
                "CREDIT"@,
            ),
            t.params@.len() == 6,
            param_is(t.params@[0], "journal_id"@, ParamDataType::Uuid),
            param_is(t.params@[1], "currency"@, ParamDataType::String),
            param_is(t.params@[2], "amount"@, ParamDataType::Decimal),
            param_is(t.params@[3], "account_id"@, ParamDataType::Uuid),
            param_is(t.params@[4], "frozen_accounts_account_id"@, ParamDataType::Uuid),
            param_is(t.params@[5], "effective"@, ParamDataType::Date),
    {
        let transaction = NewTxTemplateTransaction {
            journal_id: "params.journal_id".to_owned(),
            description: "'Freeze a deposit account'".to_owned(),
            effective: "params.effective".to_owned(),
        };
        let mut entries = Vec::new();
        entries.push(entry("'FREEZE_ACCOUNT_DR'", "params.account_id", "DEBIT"));
        entries.push(entry("'FREEZE_ACCOUNT_CR'", "params.frozen_accounts_account_id", "CREDIT"));
        NewTxTemplate {
            id: EntityId::new(),
            code: FREEZE_ACCOUNT_CODE.to_owned(),
            transaction,
            entries,
            params: FreezeAccountParams::defs(),
        }
    }

    /// Whether registering the template succeeded, from the ledger's reply:
    /// a template that the ledger already holds under the same code counts
    /// as registered; any other failure is passed on.
    pub fn registration_result(reply: TemplateRegistration) -> (r: Result<(), String>)
        ensures
            r is Ok <==> !(reply is Failed),
            reply matches TemplateRegistration::Failed(m) ==> r == Err::<(), String>(m),
    {
        match reply {
            TemplateRegistration::Created => Ok(()),
            TemplateRegistration::DuplicateCode => Ok(()),
            TemplateRegistration::Failed(m) => Err(m),
        }
    }
}

/// What the ledger replied to the request to create a template.
#[derive(Debug)]
pub enum TemplateRegistration {
    Created,
    /// A template with the same code exists already.
    DuplicateCode,
    /// Any other failure, with its message.
    Failed(String),
}

} // verus!
