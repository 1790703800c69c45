use vstd::prelude::*;
use crate::client::{request_is, HttpRequest};
use crate::environment::{base_url_of, certificate_file_of, Environment};
use crate::json::{
    decimal, json_text_of, lemma_decimal_injective, lemma_decimal_prefix, lemma_json_text_prefix, member_text, members_text,
    object_text,
};
use crate::codes::{command_name, identifier_code, response_type_name, CommandId};
use crate::payloads::{
    account_balance_fields, account_balance_keys, b2b_fields, b2b_keys, b2c_fields, b2c_keys,
    c2b_register_fields, c2b_register_keys, c2b_simulate_fields, c2b_simulate_keys, keys_of,
};
use crate::payloads::{
    AccountBalancePayload, B2bPayload, B2cPayload, C2bRegisterPayload, C2bSimulatePayload,
};

verus! {

/// Every business-to-customer request carries exactly the keys of its fixed
/// table, in the table's order, whatever the payload; no key comes twice.
pub proof fn lemma_b2c_field_table(p: B2cPayload)
    ensures
        keys_of(b2c_fields(p)) == b2c_keys(),
        b2c_keys().no_duplicates(),
{
    assert(keys_of(b2c_fields(p)) =~= b2c_keys());
    reveal_strlit("InitiatorName");
    reveal_strlit("SecurityCredential");
    reveal_strlit("CommandID");
    reveal_strlit("Amount");
    reveal_strlit("PartyA");
    reveal_strlit("PartyB");
    reveal_strlit("Remarks");
    reveal_strlit("QueueTimeOutURL");
    reveal_strlit("ResultURL");
    reveal_strlit("Occasion");
    let k = b2c_keys();
    assert forall|i: int, j: int| 0 <= i < j < k.len() implies k[i] != k[j] by {
        if k[i].len() == k[j].len() && k[i][0] == k[j][0] {
            assert(k[i][5] != k[j][5]);
        }
    }
}

/// Every business-to-business request carries exactly the keys of its fixed
/// table, in the table's order, whatever the payload; no key comes twice.
pub proof fn lemma_b2b_field_table(p: B2bPayload)
    ensures
        keys_of(b2b_fields(p)) == b2b_keys(),
        b2b_keys().no_duplicates(),
{
    assert(keys_of(b2b_fields(p)) =~= b2b_keys());
    reveal_strlit("Initiator");
    reveal_strlit("SecurityCredential");
    reveal_strlit("CommandID");
    reveal_strlit("SenderIdentifierType");
    reveal_strlit("RecieverIdentifierType");
    reveal_strlit("Amount");
    reveal_strlit("PartyA");
    reveal_strlit("PartyB");
    reveal_strlit("AccountReference");
    reveal_strlit("Remarks");
    reveal_strlit("QueueTimeOutURL");
    reveal_strlit("ResultURL");
    let k = b2b_keys();
    assert forall|i: int, j: int| 0 <= i < j < k.len() implies k[i] != k[j] by {
        if k[i].len() == k[j].len() && k[i][0] == k[j][0] {
            assert(k[i][5] != k[j][5]);
        }
    }
}

/// Every registration request carries exactly the keys of its fixed table,
/// in the table's order, whatever the payload; no key comes twice.
pub proof fn lemma_c2b_register_field_table(p: C2bRegisterPayload)
    ensures
        keys_of(c2b_register_fields(p)) == c2b_register_keys(),
        c2b_register_keys().no_duplicates(),
{
    assert(keys_of(c2b_register_fields(p)) =~= c2b_register_keys());
    reveal_strlit("ValidationURL");
    reveal_strlit("ConfirmationURL");
    reveal_strlit("ResponseType");
    reveal_strlit("ShortCode");
    let k = c2b_register_keys();
    assert forall|i: int, j: int| 0 <= i < j < k.len() implies k[i] != k[j] by {
        assert(k[i][0] != k[j][0]);
    }
}

/// Every simulated payment carries exactly the keys of its fixed table, in
/// the table's order, whatever the payload; no key comes twice.
pub proof fn lemma_c2b_simulate_field_table(p: C2bSimulatePayload)
    ensures
        keys_of(c2b_simulate_fields(p)) == c2b_simulate_keys(),
        c2b_simulate_keys().no_duplicates(),
{
    assert(keys_of(c2b_simulate_fields(p)) =~= c2b_simulate_keys());
    reveal_strlit("CommandID");
    reveal_strlit("Amount");
    reveal_strlit("Msisdn");
    reveal_strlit("BillRefNumber");
    reveal_strlit("ShortCode");
    let k = c2b_simulate_keys();
    assert forall|i: int, j: int| 0 <= i < j < k.len() implies k[i] != k[j] by {
        assert(k[i][0] != k[j][0]);
    }
}

/// Every balance query carries exactly the keys of its fixed table, in the
/// table's order, whatever the payload; no key comes twice.
pub proof fn lemma_account_balance_field_table(p: AccountBalancePayload)
    ensures
        keys_of(account_balance_fields(p)) == account_balance_keys(),
        account_balance_keys().no_duplicates(),
{
    assert(keys_of(account_balance_fields(p)) =~= account_balance_keys());
    reveal_strlit("CommandID");
    reveal_strlit("PartyA");
    reveal_strlit("IdentifierType");
    reveal_strlit("Remarks");
    reveal_strlit("Initiator");
    reveal_strlit("SecurityCredential");
    reveal_strlit("QueueTimeOutURL");
    reveal_strlit("ResultURL");
    let k = account_balance_keys();
    assert forall|i: int, j: int| 0 <= i < j < k.len() implies k[i] != k[j] by {
        if k[i].len() == k[j].len() && k[i][0] == k[j][0] {
            assert(k[i][1] != k[j][1]);
        }
    }
}

/// Two requests for one operation and one payload, built for two
/// environments, carry the same body, and their URLs agree past the base
/// URL; where the environments differ, so do the base URLs and the
/// certificates.
pub proof fn lemma_environment_changes_only_base(
    r1: HttpRequest,
    r2: HttpRequest,
    e1: Environment,
    e2: Environment,
    path: Seq<char>,
    fields: Seq<(Seq<char>, Seq<char>)>,
)
    requires
        request_is(r1, e1, path, fields),
        request_is(r2, e2, path, fields),
    ensures
        r1.body@ == r2.body@,
        r1.url@.subrange(base_url_of(e1).len() as int, r1.url@.len() as int) == path,
        r2.url@.subrange(base_url_of(e2).len() as int, r2.url@.len() as int) == path,
        e1 != e2 ==> base_url_of(e1) != base_url_of(e2),
        e1 != e2 ==> certificate_file_of(e1) != certificate_file_of(e2),
{
    assert(r1.url@.subrange(base_url_of(e1).len() as int, r1.url@.len() as int) =~= path);
    assert(r2.url@.subrange(base_url_of(e2).len() as int, r2.url@.len() as int) =~= path);
    reveal_strlit("https://sandbox.safaricom.co.ke");
    reveal_strlit("https://api.safaricom.co.ke");
    reveal_strlit("certificates/sandbox.cer");
    reveal_strlit("certificates/production.cer");
    assert(certificate_file_of(Environment::Sandbox).len() != certificate_file_of(
        Environment::Production,
    ).len());
}

/// The JSON text of a member value: a number where the flag is set, else a
/// string.
pub open spec fn value_text(v: (bool, Seq<char>, nat)) -> Seq<char> {
    if v.0 {
        decimal(v.2)
    } else {
        json_text_of(v.1)
    }
}

/// Whether two member values of one kind are the same value.
pub open spec fn same_value(v: (bool, Seq<char>, nat), w: (bool, Seq<char>, nat)) -> bool {
    if v.0 {
        v.2 == w.2
    } else {
        v.1 == w.1
    }
}

/// The members of an object with keys `keys` and values `vs`.
pub open spec fn members_of(keys: Seq<Seq<char>>, vs: Seq<(bool, Seq<char>, nat)>) -> Seq<
    (Seq<char>, Seq<char>),
> {
    Seq::new(keys.len(), |i: int| (keys[i], value_text(vs[i])))
}

/// The members of an object read from the front: the first member, then a
/// comma and the others.
pub proof fn lemma_members_front(f: Seq<(Seq<char>, Seq<char>)>)
    requires
        f.len() > 0,
    ensures
        f.len() == 1 ==> members_text(f) == member_text(f[0].0, f[0].1),
        f.len() > 1 ==> members_text(f) == member_text(f[0].0, f[0].1) + seq![','] + members_text(
            f.drop_first(),
        ),
    decreases f.len(),
{
    if f.len() > 2 {
        lemma_members_front(f.drop_last());
        assert(f.drop_last()[0] == f[0]);
        assert(f.drop_last().drop_first() =~= f.drop_first().drop_last());
        assert(f.drop_first().last() == f.last());
        assert(members_text(f.drop_first()) == members_text(f.drop_first().drop_last()) + seq![
            ',',
        ] + member_text(f.drop_first().last().0, f.drop_first().last().1));
        assert(members_text(f) =~= member_text(f[0].0, f[0].1) + seq![','] + members_text(
            f.drop_first(),
        ));
    } else if f.len() == 2 {
        assert(f.drop_last()[0] == f[0]);
        assert(f.drop_first()[0] == f.last());
        assert(members_text(f.drop_first()) == member_text(f.last().0, f.last().1));
        assert(members_text(f.drop_last()) == member_text(f[0].0, f[0].1));
        assert(members_text(f) =~= member_text(f[0].0, f[0].1) + seq![','] + members_text(
            f.drop_first(),
        ));
    }
}

/// Objects with the same keys, whose values are of the same kinds key by
/// key, are written the same only where every value is the same.
#[verifier::rlimit(60)]
pub proof fn lemma_members_injective(
    keys: Seq<Seq<char>>,
    xs: Seq<(bool, Seq<char>, nat)>,
    ys: Seq<(bool, Seq<char>, nat)>,
)
    requires
        keys.len() > 0,
        xs.len() == keys.len(),
        ys.len() == keys.len(),
        forall|i: int| 0 <= i < keys.len() ==> xs[i].0 == ys[i].0,
        members_text(members_of(keys, xs)) + seq!['}'] == members_text(members_of(keys, ys))
            + seq!['}'],
    ensures
        forall|i: int| 0 <= i < keys.len() ==> same_value(#[trigger] xs[i], ys[i]),
    decreases keys.len(),
{
    let f = members_of(keys, xs);
    let g = members_of(keys, ys);
    lemma_members_front(f);
    lemma_members_front(g);
    let k = json_text_of(keys[0]) + seq![':'];
    let tf = if keys.len() == 1 {
        seq!['}']
    } else {
        seq![','] + members_text(f.drop_first()) + seq!['}']
    };
    let tg = if keys.len() == 1 {
        seq!['}']
    } else {
        seq![','] + members_text(g.drop_first()) + seq!['}']
    };
    let l = members_text(f) + seq!['}'];
    let m = members_text(g) + seq!['}'];
    assert(l =~= k + (value_text(xs[0]) + tf));
    assert(m =~= k + (value_text(ys[0]) + tg));
    assert(value_text(xs[0]) + tf =~= l.subrange(k.len() as int, l.len() as int));
    assert(value_text(ys[0]) + tg =~= m.subrange(k.len() as int, m.len() as int));
    assert(xs[0].0 == ys[0].0);
    if xs[0].0 {
        lemma_decimal_prefix(xs[0].2, ys[0].2, tf, tg);
    } else {
        lemma_json_text_prefix(xs[0].1, ys[0].1, tf, tg);
    }
    if keys.len() > 1 {
        assert(f.drop_first() =~= members_of(keys.drop_first(), xs.drop_first()));
        assert(g.drop_first() =~= members_of(keys.drop_first(), ys.drop_first()));
        assert(tf.drop_first() =~= members_text(f.drop_first()) + seq!['}']);
        assert(tg.drop_first() =~= members_text(g.drop_first()) + seq!['}']);
        assert forall|i: int| 0 <= i < keys.len() - 1 implies xs.drop_first()[i].0
            == ys.drop_first()[i].0 by {
            assert(xs[i + 1].0 == ys[i + 1].0);
        }
        lemma_members_injective(keys.drop_first(), xs.drop_first(), ys.drop_first());
        assert forall|i: int| 0 <= i < keys.len() implies same_value(#[trigger] xs[i], ys[i]) by {
            if i > 0 {
                assert(same_value(xs.drop_first()[i - 1], ys.drop_first()[i - 1]));
            }
        }
    }
}

/// Equal bodies of one request kind have equal values under every key.
proof fn lemma_object_injective(
    keys: Seq<Seq<char>>,
    xs: Seq<(bool, Seq<char>, nat)>,
    ys: Seq<(bool, Seq<char>, nat)>,
)
    requires
        keys.len() > 0,
        xs.len() == keys.len(),
        ys.len() == keys.len(),
        forall|i: int| 0 <= i < keys.len() ==> xs[i].0 == ys[i].0,
        object_text(members_of(keys, xs)) == object_text(members_of(keys, ys)),
    ensures
        forall|i: int| 0 <= i < keys.len() ==> same_value(#[trigger] xs[i], ys[i]),
{
    let l = object_text(members_of(keys, xs));
    assert(l.drop_first() =~= members_text(members_of(keys, xs)) + seq!['}']);
    assert(l.drop_first() =~= members_text(members_of(keys, ys)) + seq!['}']);
    lemma_members_injective(keys, xs, ys);
}

/// A string member value.
pub open spec fn text(s: Seq<char>) -> (bool, Seq<char>, nat) {
    (false, s, 0)
}

/// A number member value.
pub open spec fn number(n: nat) -> (bool, Seq<char>, nat) {
    (true, Seq::empty(), n)
}

/// The command that a name stands for.
pub open spec fn command_of_name(s: Seq<char>) -> CommandId {
    if s == "TransactionReversal"@ {
        CommandId::TransactionReversal
    } else if s == "SalaryPayment"@ {
        CommandId::SalaryPayment
    } else if s == "BusinessPayment"@ {
        CommandId::BusinessPayment
    } else if s == "PromotionPayment"@ {
        CommandId::PromotionPayment
    } else if s == "AccountBalance"@ {
        CommandId::AccountBalance
    } else if s == "CustomerPayBillOnline"@ {
        CommandId::CustomerPayBillOnline
    } else if s == "TransactionStatusQuery"@ {
        CommandId::TransactionStatusQuery
    } else if s == "CheckIdentity"@ {
        CommandId::CheckIdentity
    } else if s == "BusinessPayBill"@ {
        CommandId::BusinessPayBill
    } else if s == "BusinessBuyGoods"@ {
        CommandId::BusinessBuyGoods
    } else if s == "DisburseFundsToBusiness"@ {
        CommandId::DisburseFundsToBusiness
    } else if s == "BusinessToBusinessTransfer"@ {
        CommandId::BusinessToBusinessTransfer
    } else {
        CommandId::BusinessTransferFromMMFToUtility
    }
}

/// Distinct commands have distinct names.
pub proof fn lemma_command_name_injective(a: CommandId, b: CommandId)
    requires
        command_name(a) == command_name(b),
    ensures
        a == b,
{
    reveal_strlit("TransactionReversal");
    reveal_strlit("SalaryPayment");
    reveal_strlit("BusinessPayment");
    reveal_strlit("PromotionPayment");
    reveal_strlit("AccountBalance");
    reveal_strlit("CustomerPayBillOnline");
    reveal_strlit("TransactionStatusQuery");
    reveal_strlit("CheckIdentity");
    reveal_strlit("BusinessPayBill");
    reveal_strlit("BusinessBuyGoods");
    reveal_strlit("DisburseFundsToBusiness");
    reveal_strlit("BusinessToBusinessTransfer");
    reveal_strlit("BusinessTransferFromMMFToUtility");
    let k = seq![
        "TransactionReversal"@,
        "SalaryPayment"@,
        "BusinessPayment"@,
        "PromotionPayment"@,
        "AccountBalance"@,
        "CustomerPayBillOnline"@,
        "TransactionStatusQuery"@,
        "CheckIdentity"@,
        "BusinessPayBill"@,
        "BusinessBuyGoods"@,
        "DisburseFundsToBusiness"@,
        "BusinessToBusinessTransfer"@,
        "BusinessTransferFromMMFToUtility"@,
    ];
    assert forall|i: int, j: int| 0 <= i < j < k.len() implies k[i] != k[j] by {
        if k[i].len() == k[j].len() && k[i][0] == k[j][0] {
            assert(k[i][11] != k[j][11]);
        }
    }
    assert(command_of_name(command_name(a)) == a);
    assert(command_of_name(command_name(b)) == b);
}

/// Two registration requests carry the same body only where their
/// payloads agree on every field.
pub proof fn lemma_c2b_register_body_injective(p: C2bRegisterPayload, q: C2bRegisterPayload)
    requires
        object_text(c2b_register_fields(p)) == object_text(c2b_register_fields(q)),
    ensures
        p.validation_url@ == q.validation_url@,
        p.confirmation_url@ == q.confirmation_url@,
        p.response_type == q.response_type,
        p.short_code@ == q.short_code@,
{
    let xs = seq![
        text(p.validation_url@),
        text(p.confirmation_url@),
        text(response_type_name(p.response_type)),
        text(p.short_code@),
    ];
    let ys = seq![
        text(q.validation_url@),
        text(q.confirmation_url@),
        text(response_type_name(q.response_type)),
        text(q.short_code@),
    ];
    let keys = c2b_register_keys();
    assert(c2b_register_fields(p) =~= members_of(keys, xs));
    assert(c2b_register_fields(q) =~= members_of(keys, ys));
    lemma_object_injective(keys, xs, ys);
    assert(same_value(xs[0], ys[0]) && same_value(xs[1], ys[1]));
    assert(same_value(xs[2], ys[2]) && same_value(xs[3], ys[3]));
    reveal_strlit("Completed");
    reveal_strlit("Cancelled");
    if p.response_type != q.response_type {
        assert(response_type_name(p.response_type)[1] != response_type_name(q.response_type)[1]);
    }
}

/// Two business-to-customer requests carry the same body only where their
/// payloads agree on every field.
pub proof fn lemma_b2c_body_injective(p: B2cPayload, q: B2cPayload)
    requires
        object_text(b2c_fields(p)) == object_text(b2c_fields(q)),
    ensures
        p.initiator_name@ == q.initiator_name@,
        p.security_credential@ == q.security_credential@,
        p.command_id == q.command_id,
        p.amount == q.amount,
        p.party_a@ == q.party_a@,
        p.party_b@ == q.party_b@,
        p.remarks@ == q.remarks@,
        p.queue_timeout_url@ == q.queue_timeout_url@,
        p.result_url@ == q.result_url@,
        p.occasion@ == q.occasion@,
{
    let xs = seq![
        text(p.initiator_name@),
        text(p.security_credential@),
        text(command_name(p.command_id)),
        number(p.amount as nat),
        text(p.party_a@),
        text(p.party_b@),
        text(p.remarks@),
        text(p.queue_timeout_url@),
        text(p.result_url@),
        text(p.occasion@),
    ];
    let ys = seq![
        text(q.initiator_name@),
        text(q.security_credential@),
        text(command_name(q.command_id)),
        number(q.amount as nat),
        text(q.party_a@),
        text(q.party_b@),
        text(q.remarks@),
        text(q.queue_timeout_url@),
        text(q.result_url@),
        text(q.occasion@),
    ];
    let keys = b2c_keys();
    assert(b2c_fields(p) =~= members_of(keys, xs));
    assert(b2c_fields(q) =~= members_of(keys, ys));
    lemma_object_injective(keys, xs, ys);
    assert(same_value(xs[0], ys[0]) && same_value(xs[1], ys[1]) && same_value(xs[2], ys[2]));
    assert(same_value(xs[3], ys[3]) && same_value(xs[4], ys[4]) && same_value(xs[5], ys[5]));
    assert(same_value(xs[6], ys[6]) && same_value(xs[7], ys[7]) && same_value(xs[8], ys[8]));
    assert(same_value(xs[9], ys[9]));
    lemma_command_name_injective(p.command_id, q.command_id);
}

/// Two business-to-business requests carry the same body only where their
/// payloads agree on every field.
pub proof fn lemma_b2b_body_injective(p: B2bPayload, q: B2bPayload)
    requires
        object_text(b2b_fields(p)) == object_text(b2b_fields(q)),
    ensures
        p.initiator_name@ == q.initiator_name@,
        p.security_credential@ == q.security_credential@,
        p.command_id == q.command_id,
        p.sender_id == q.sender_id,
        p.receiver_id == q.receiver_id,
        p.amount == q.amount,
        p.party_a@ == q.party_a@,
        p.party_b@ == q.party_b@,
        p.account_ref@ == q.account_ref@,
        p.remarks@ == q.remarks@,
        p.queue_timeout_url@ == q.queue_timeout_url@,
        p.result_url@ == q.result_url@,
{
    let xs = seq![
        text(p.initiator_name@),
        text(p.security_credential@),
        text(command_name(p.command_id)),
        number(p.sender_id as nat),
        number(p.receiver_id as nat),
        number(p.amount as nat),
        text(p.party_a@),
        text(p.party_b@),
        text(p.account_ref@),
        text(p.remarks@),
        text(p.queue_timeout_url@),
        text(p.result_url@),
    ];
    let ys = seq![
        text(q.initiator_name@),
        text(q.security_credential@),
        text(command_name(q.command_id)),
        number(q.sender_id as nat),
        number(q.receiver_id as nat),
        number(q.amount as nat),
        text(q.party_a@),
        text(q.party_b@),
        text(q.account_ref@),
        text(q.remarks@),
        text(q.queue_timeout_url@),
        text(q.result_url@),
    ];
    let keys = b2b_keys();
    assert(b2b_fields(p) =~= members_of(keys, xs));
    assert(b2b_fields(q) =~= members_of(keys, ys));
    lemma_object_injective(keys, xs, ys);
    assert(same_value(xs[0], ys[0]));
    assert(same_value(xs[1], ys[1]));
    assert(same_value(xs[2], ys[2]));
    assert(same_value(xs[3], ys[3]));
    assert(same_value(xs[4], ys[4]));
    assert(same_value(xs[5], ys[5]));
    assert(same_value(xs[6], ys[6]));
    assert(same_value(xs[7], ys[7]));
    assert(same_value(xs[8], ys[8]));
    assert(same_value(xs[9], ys[9]));
    assert(same_value(xs[10], ys[10]));
    assert(same_value(xs[11], ys[11]));
    lemma_command_name_injective(p.command_id, q.command_id);
}

/// Two simulated payments carry the same body only where their payloads
/// agree on every field.
pub proof fn lemma_c2b_simulate_body_injective(p: C2bSimulatePayload, q: C2bSimulatePayload)
    requires
        object_text(c2b_simulate_fields(p)) == object_text(c2b_simulate_fields(q)),
    ensures
        p.command_id == q.command_id,
        p.amount == q.amount,
        p.msisdn@ == q.msisdn@,
        p.bill_ref_number@ == q.bill_ref_number@,
        p.short_code@ == q.short_code@,
{
    let xs = seq![
        text(command_name(p.command_id)),
        number(p.amount as nat),
        text(p.msisdn@),
        text(p.bill_ref_number@),
        text(p.short_code@),
    ];
    let ys = seq![
        text(command_name(q.command_id)),
        number(q.amount as nat),
        text(q.msisdn@),
        text(q.bill_ref_number@),
        text(q.short_code@),
    ];
    let keys = c2b_simulate_keys();
    assert(c2b_simulate_fields(p) =~= members_of(keys, xs));
    assert(c2b_simulate_fields(q) =~= members_of(keys, ys));
    lemma_object_injective(keys, xs, ys);
    assert(same_value(xs[0], ys[0]));
    assert(same_value(xs[1], ys[1]));
    assert(same_value(xs[2], ys[2]));
    assert(same_value(xs[3], ys[3]));
    assert(same_value(xs[4], ys[4]));
    lemma_command_name_injective(p.command_id, q.command_id);
}

/// Two balance queries carry the same body only where their payloads agree
/// on every field.
pub proof fn lemma_account_balance_body_injective(p: AccountBalancePayload, q: AccountBalancePayload)
    requires
        object_text(account_balance_fields(p)) == object_text(account_balance_fields(q)),
    ensures
        p.command_id == q.command_id,
        p.party_a@ == q.party_a@,
        p.identifier_type == q.identifier_type,
        p.remarks@ == q.remarks@,
        p.initiator_name@ == q.initiator_name@,
        p.security_credential@ == q.security_credential@,
        p.queue_timeout_url@ == q.queue_timeout_url@,
        p.result_url@ == q.result_url@,
{
    let xs = seq![
        text(command_name(p.command_id)),
        text(p.party_a@),
        text(decimal(identifier_code(p.identifier_type) as nat)),
        text(p.remarks@),
        text(p.initiator_name@),
        text(p.security_credential@),
        text(p.queue_timeout_url@),
        text(p.result_url@),
    ];
    let ys = seq![
        text(command_name(q.command_id)),
        text(q.party_a@),
        text(decimal(identifier_code(q.identifier_type) as nat)),
        text(q.remarks@),
        text(q.initiator_name@),
        text(q.security_credential@),
        text(q.queue_timeout_url@),
        text(q.result_url@),
    ];
    let keys = account_balance_keys();
    assert(account_balance_fields(p) =~= members_of(keys, xs));
    assert(account_balance_fields(q) =~= members_of(keys, ys));
    lemma_object_injective(keys, xs, ys);
    assert(same_value(xs[0], ys[0]));
    assert(same_value(xs[1], ys[1]));
    assert(same_value(xs[2], ys[2]));
    assert(same_value(xs[3], ys[3]));
    assert(same_value(xs[4], ys[4]));
    assert(same_value(xs[5], ys[5]));
    assert(same_value(xs[6], ys[6]));
    assert(same_value(xs[7], ys[7]));
    lemma_command_name_injective(p.command_id, q.command_id);
    lemma_decimal_injective(identifier_code(p.identifier_type) as nat, identifier_code(q.identifier_type) as nat);
}

} // verus!
