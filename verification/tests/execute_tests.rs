use rate_limiter::execute::{
    add_new_paths, bypass_update, intent_ok, remove_intent, submit_intent, try_add_path,
    try_remove_path, try_reset_path_quota,
};
use rate_limiter::helpers::Tracker;
use rate_limiter::msg::{PathMsg, QuotaMsg};
use rate_limiter::state::{Path, RateLimit};
use rate_limiter::timestamp::Timestamp;
use rate_limiter::uint256::Uint256;
use rate_limiter::ContractError;

const IBC_ADDR: &str = "IBC_MODULE";
const GOV_ADDR: &str = "GOV_MODULE";

pub const RESET_TIME_DAILY: u64 = 60 * 60 * 24;
pub const RESET_TIME_WEEKLY: u64 = 60 * 60 * 24 * 7;

struct Attribute {
    key: String,
    value: String,
}

struct Response {
    messages: Vec<String>,
    attributes: Vec<Attribute>,
}

type IntentKey = (String, String, String);

/// What one contract instance has in storage.
struct Deps {
    ibc_module: String,
    gov_module: String,
    trackers: Vec<Tracker>,
    bypass: Vec<((String, String), Vec<(String, Uint256)>)>,
    intents: Vec<(IntentKey, (Uint256, Timestamp))>,
}

fn u(value: u128) -> Uint256 {
    Uint256::from_u128(value)
}

fn show(value: Uint256) -> String {
    cosmwasm_std::Uint256::from_be_bytes(value.be).to_string()
}

fn mock_time() -> Timestamp {
    Timestamp::from_nanos(1_571_797_419_879_305_533)
}

fn response(attributes: &[(&str, String)]) -> Response {
    Response {
        messages: vec![],
        attributes: attributes
            .iter()
            .map(|(key, value)| Attribute { key: key.to_string(), value: value.clone() })
            .collect(),
    }
}

fn instantiate(paths: Vec<PathMsg>, now: Timestamp) -> (Deps, Response) {
    let mut deps = Deps {
        ibc_module: IBC_ADDR.to_string(),
        gov_module: GOV_ADDR.to_string(),
        trackers: vec![],
        bypass: vec![],
        intents: vec![],
    };
    for (key, rules) in add_new_paths(paths, now) {
        deps.save(key, rules);
    }
    let res = response(&[
        ("method", "instantiate".to_string()),
        ("ibc_module", IBC_ADDR.to_string()),
        ("gov_module", GOV_ADDR.to_string()),
    ]);
    (deps, res)
}

impl Deps {
    fn load(&self, channel: &str, denom: &str) -> Option<Vec<RateLimit>> {
        self.trackers
            .iter()
            .find(|(key, _)| key.0 == channel && key.1 == denom)
            .map(|(_, rules)| rules.clone())
    }

    fn save(&mut self, key: (String, String), rules: Vec<RateLimit>) {
        match self.trackers.iter_mut().find(|(k, _)| *k == key) {
            Some(entry) => entry.1 = rules,
            None => self.trackers.push((key, rules)),
        }
    }

    fn load_bypass(&self, channel: &str, denom: &str) -> Option<Vec<(String, Uint256)>> {
        self.bypass
            .iter()
            .find(|(key, _)| key.0 == channel && key.1 == denom)
            .map(|(_, queue)| queue.clone())
    }

    fn load_intent(&self, key: &IntentKey) -> Option<(Uint256, Timestamp)> {
        self.intents.iter().find(|(k, _)| k == key).map(|(_, intent)| *intent)
    }

    fn add_path(
        &mut self,
        sender: &str,
        channel_id: &str,
        denom: &str,
        quotas: Vec<QuotaMsg>,
        now: Timestamp,
    ) -> Result<Response, ContractError> {
        let (key, rules) = try_add_path(
            sender.to_string(),
            &self.ibc_module,
            &self.gov_module,
            channel_id.to_string(),
            denom.to_string(),
            quotas,
            now,
        )?;
        self.save(key, rules);
        Ok(response(&[
            ("method", "try_add_channel".to_string()),
            ("channel_id", channel_id.to_string()),
            ("denom", denom.to_string()),
        ]))
    }

    fn remove_path(
        &mut self,
        sender: &str,
        channel_id: &str,
        denom: &str,
    ) -> Result<Response, ContractError> {
        let key = try_remove_path(
            sender.to_string(),
            &self.ibc_module,
            &self.gov_module,
            channel_id.to_string(),
            denom.to_string(),
        )?;
        self.trackers.retain(|(k, _)| *k != key);
        Ok(response(&[
            ("method", "try_remove_channel".to_string()),
            ("denom", denom.to_string()),
            ("channel_id", channel_id.to_string()),
        ]))
    }

    fn reset_path_quota(
        &mut self,
        sender: &str,
        channel_id: &str,
        denom: &str,
        quota_id: &str,
        now: Timestamp,
    ) -> Result<Response, ContractError> {
        let limits = try_reset_path_quota(
            sender.to_string(),
            &self.gov_module,
            self.load(channel_id, denom),
            channel_id.to_string(),
            denom.to_string(),
            quota_id.to_string(),
            now,
        )?;
        self.save((channel_id.to_string(), denom.to_string()), limits);
        Ok(response(&[
            ("method", "try_reset_channel".to_string()),
            ("channel_id", channel_id.to_string()),
        ]))
    }

    fn bypass_update(
        &mut self,
        msg_invoker: &str,
        sender: &str,
        channel_id: &str,
        denom: &str,
        amount: Uint256,
    ) -> Result<Response, ContractError> {
        let path = Path::new(channel_id, denom);
        let queue = self.load_bypass(channel_id, denom).unwrap_or_default();
        let queue = bypass_update(
            msg_invoker.to_string(),
            &self.ibc_module,
            &self.gov_module,
            sender.to_string(),
            queue,
            amount,
        )?;
        let key: (String, String) = (&path).into();
        match self.bypass.iter_mut().find(|(k, _)| *k == key) {
            Some(entry) => entry.1 = queue,
            None => self.bypass.push((key, queue)),
        }
        Ok(response(&[
            ("sender_bypass", sender.to_string()),
            ("amount", show(amount)),
            ("channel_id", path.channel.clone()),
            ("denom", path.denom.clone()),
        ]))
    }

    fn submit_intent(
        &mut self,
        now: Timestamp,
        msg_invoker: &str,
        sender: &str,
        channel_id: &str,
        denom: &str,
        amount: Uint256,
    ) -> Result<Response, ContractError> {
        let key = (sender.to_string(), channel_id.to_string(), denom.to_string());
        let intent = submit_intent(
            now,
            msg_invoker.to_string(),
            &self.ibc_module,
            &self.gov_module,
            self.load_intent(&key),
            amount,
        )?;
        self.intents.push((key, intent));
        Ok(response(&[
            ("submit_intent", sender.to_string()),
            ("amount", show(amount)),
            ("channel_id", channel_id.to_string()),
            ("denom", denom.to_string()),
            ("intent_action", "submit".to_string()),
        ]))
    }

    fn remove_intent(
        &mut self,
        msg_invoker: &str,
        sender: &str,
        channel_id: &str,
        denom: &str,
    ) -> Result<Response, ContractError> {
        let key = (sender.to_string(), channel_id.to_string(), denom.to_string());
        remove_intent(
            msg_invoker.to_string(),
            &self.ibc_module,
            &self.gov_module,
            self.load_intent(&key),
        )?;
        self.intents.retain(|(k, _)| *k != key);
        Ok(response(&[
            ("remove_intent", sender.to_string()),
            ("channel_id", channel_id.to_string()),
            ("denom", denom.to_string()),
            ("intent_action", "remove".to_string()),
        ]))
    }
}

pub fn verify_query_response(
    value: &RateLimit,
    quota_name: &str,
    send_recv: (u32, u32),
    duration: u64,
    inflow: Uint256,
    outflow: Uint256,
    period_end: Timestamp,
) {
    assert_eq!(value.quota.name, quota_name);
    assert_eq!(value.quota.max_percentage_send, send_recv.0);
    assert_eq!(value.quota.max_percentage_recv, send_recv.1);
    assert_eq!(value.quota.duration, duration);
    assert_eq!(value.flow.inflow, inflow);
    assert_eq!(value.flow.outflow, outflow);
    assert_eq!(value.flow.period_end, period_end);
}

#[test] // Tests AddPath and RemovePath messages
fn management_add_and_remove_path() {
    let now = mock_time();
    let (mut deps, _) = instantiate(vec![], now);

    let res = deps
        .add_path(
            IBC_ADDR,
            "channel",
            "denom",
            vec![QuotaMsg { name: "daily".to_string(), duration: 1600, send_recv: (3, 5) }],
            now,
        )
        .unwrap();
    assert_eq!(0, res.messages.len());

    let value = deps.load("channel", "denom").unwrap();
    verify_query_response(&value[0], "daily", (3, 5), 1600, u(0), u(0), now.plus_seconds(1600));

    assert_eq!(value.len(), 1);

    // Add another path
    deps.add_path(
        IBC_ADDR,
        "channel2",
        "denom",
        vec![QuotaMsg { name: "daily".to_string(), duration: 1600, send_recv: (3, 5) }],
        now,
    )
    .unwrap();

    // remove the first one
    deps.remove_path(IBC_ADDR, "channel", "denom").unwrap();

    // The channel is not there anymore
    assert!(deps.load("channel", "denom").is_none());

    // The second channel is still there
    let value = deps.load("channel2", "denom").unwrap();
    assert_eq!(value.len(), 1);
    verify_query_response(&value[0], "daily", (3, 5), 1600, u(0), u(0), now.plus_seconds(1600));

    // Paths are overriden if they share a name and denom
    deps.add_path(
        IBC_ADDR,
        "channel2",
        "denom",
        vec![QuotaMsg { name: "different".to_string(), duration: 5000, send_recv: (50, 30) }],
        now,
    )
    .unwrap();

    let value = deps.load("channel2", "denom").unwrap();
    assert_eq!(value.len(), 1);

    verify_query_response(
        &value[0],
        "different",
        (50, 30),
        5000,
        u(0),
        u(0),
        now.plus_seconds(5000),
    );
}

#[test]
fn test_intent_ok() {
    let now = Timestamp::from_seconds(1700383122);
    let unlock = now.plus_seconds(86400);
    let then = now.plus_seconds(200);
    let amount = Uint256::from_u128(1_000_000);

    // ensure that timestamp fails
    assert!(!intent_ok((amount, unlock), then, amount));

    let then = now.plus_seconds(86400);

    // ensure amount fails
    assert!(!intent_ok((amount, now), then, Uint256::from_u128(1)));

    // amount and timestamp ok so should return true
    assert!(intent_ok((amount, now), then, amount))
}

#[test] // Tests we ccan instantiate the contract and that the owners are set correctly
fn test_bypass_update_no_threshold() {
    let (mut deps, res) = instantiate(vec![], mock_time());
    assert_eq!(0, res.messages.len());
    let channel_id = format!("channel");
    let denom = format!("denom");
    let sender = "SENDER_ADDR";
    let res = deps
        .bypass_update(GOV_ADDR, sender, &channel_id, &denom, Uint256::from_u128(100))
        .unwrap();
    assert_eq!(res.attributes[0].key, "sender_bypass");
    assert_eq!(res.attributes[0].value, sender.to_string());

    let bypass_queue = deps.load_bypass(&channel_id, &denom).unwrap();
    assert!(bypass_queue.len() == 1);
    assert_eq!(bypass_queue[0].0, sender.to_string());
    assert_eq!(bypass_queue[0].1, Uint256::from_u128(100));
}

#[test]
fn test_submit_intent_threshold() {
    let now = Timestamp::from_seconds(1700553596);
    let quota_daily = QuotaMsg::new("daily", RESET_TIME_DAILY, 30, 40);
    let quota_weekly = QuotaMsg::new("weekly", RESET_TIME_WEEKLY, 30, 40);
    let (mut deps, _) = instantiate(
        vec![PathMsg {
            channel_id: format!("any"),
            denom: format!("denom"),
            quotas: vec![quota_daily.clone(), quota_weekly.clone()],
        }],
        now,
    );

    {
        let mut trackers = deps.load("any", "denom").unwrap();
        trackers.iter_mut().for_each(|tracker| {
            tracker.quota.channel_value = Some(Uint256::from_u128(1_000_000_000));
        });
        deps.save(("any".to_string(), "denom".to_string()), trackers);
    }
    let threshold = Uint256::from_u128(250000000);
    let not_threshold = threshold.saturating_sub(Uint256::one());

    let channel_id = format!("any");
    let denom = format!("denom");
    let sender = "SENDER_ADDR";

    deps.submit_intent(now, GOV_ADDR, sender, &channel_id, &denom, threshold).unwrap();

    assert!(deps.submit_intent(now, GOV_ADDR, sender, &channel_id, &denom, not_threshold).is_err());
}

#[test]
fn test_bypass_update_to_zero() {
    let (mut deps, res) = instantiate(vec![], mock_time());

    assert_eq!(0, res.messages.len());
    let channel_id = format!("channel");
    let denom = format!("denom");
    let sender = "SENDER_ADDR";
    let res = deps
        .bypass_update(GOV_ADDR, sender, &channel_id, &denom, Uint256::from_u128(100))
        .unwrap();
    assert_eq!(res.attributes[0].key, "sender_bypass");
    assert_eq!(res.attributes[0].value, sender.to_string());

    let bypass_queue = deps.load_bypass(&channel_id, &denom).unwrap();
    assert!(bypass_queue.len() == 1);
    assert_eq!(bypass_queue[0].0, sender.to_string());
    assert_eq!(bypass_queue[0].1, Uint256::from_u128(100));

    let res = deps.bypass_update(GOV_ADDR, sender, &channel_id, &denom, Uint256::zero()).unwrap();
    assert_eq!(res.attributes[0].key, "sender_bypass");
    assert_eq!(res.attributes[0].value, sender.to_string());

    let bypass_queue = deps.load_bypass(&channel_id, &denom).unwrap();
    assert!(bypass_queue.len() == 1);
    assert_eq!(bypass_queue[0].0, sender.to_string());
    assert_eq!(bypass_queue[0].1, Uint256::zero());
}

#[test]
fn test_submit_intent() {
    let (mut deps, res) = instantiate(vec![], mock_time());

    let sender = "SENDER";

    let mut now = Timestamp::from_seconds(1700383122);

    assert_eq!(0, res.messages.len());
    let res = deps
        .submit_intent(now, GOV_ADDR, sender, "channel_id", "denom", Uint256::from_u128(1_000_000))
        .unwrap();

    assert_eq!(res.attributes[0].key, "submit_intent");
    assert_eq!(res.attributes[0].value, sender.to_string());
    assert_eq!(res.attributes[1].key, "amount");
    assert_eq!(res.attributes[1].value, show(Uint256::from_u128(1_000_000)));
    assert_eq!(res.attributes[1].value, "1000000");
    assert_eq!(res.attributes[2].key, "channel_id");
    assert_eq!(res.attributes[2].value, "channel_id");
    assert_eq!(res.attributes[3].key, "denom");
    assert_eq!(res.attributes[3].value, "denom");
    assert_eq!(res.attributes[4].key, "intent_action");
    assert_eq!(res.attributes[4].value, "submit");

    let key = (sender.to_string(), "channel_id".to_string(), "denom".to_string());
    let intent = deps.load_intent(&key).unwrap();
    assert_eq!(intent.0, Uint256::from_u128(1_000_000));
    assert_eq!(intent.1, now.plus_seconds(86400));

    assert!(!intent_ok(intent, now, Uint256::from_u128(1_000_000)));

    now = now.plus_seconds(86400);

    assert!(intent_ok(intent, now, Uint256::from_u128(1_000_000)));

    assert!(deps
        .submit_intent(now, GOV_ADDR, sender, "channel_id", "denom", Uint256::from_u128(1_000_000))
        .is_err());

    let intent = deps.remove_intent(GOV_ADDR, sender, "channel_id", "denom").unwrap();

    assert_eq!(intent.attributes[0].key, "remove_intent");
    assert_eq!(intent.attributes[0].value, sender.to_string());
    assert_eq!(intent.attributes[1].key, "channel_id");
    assert_eq!(intent.attributes[1].value, "channel_id");
    assert_eq!(intent.attributes[2].key, "denom");
    assert_eq!(intent.attributes[2].value, "denom");
    assert_eq!(intent.attributes[3].key, "intent_action");
    assert_eq!(intent.attributes[3].value, "remove");

    assert!(deps.remove_intent(GOV_ADDR, sender, "channel_id", "denom").is_err());

    assert!(deps.load_intent(&key).is_none());
}

#[test]
fn only_the_modules_may_manage_paths() {
    let now = mock_time();
    let ibc = IBC_ADDR.to_string();
    let gov = GOV_ADDR.to_string();
    let quotas = vec![QuotaMsg::new("daily", RESET_TIME_DAILY, 1, 1)];
    let stranger = try_add_path(
        "SOMEONE".to_string(),
        &ibc,
        &gov,
        "channel".to_string(),
        "denom".to_string(),
        quotas.clone(),
        now,
    );
    assert_eq!(stranger, Err(ContractError::Unauthorized {}));
    for sender in [IBC_ADDR, GOV_ADDR] {
        let (key, rules) = try_add_path(
            sender.to_string(),
            &ibc,
            &gov,
            "channel".to_string(),
            "denom".to_string(),
            quotas.clone(),
            now,
        )
        .unwrap();
        assert_eq!(key, ("channel".to_string(), "denom".to_string()));
        assert_eq!(rules.len(), 1);
        assert_eq!(rules[0].flow.period_end, now.plus_seconds(RESET_TIME_DAILY));
    }
    assert_eq!(
        try_remove_path("SOMEONE".to_string(), &ibc, &gov, "c".to_string(), "d".to_string()),
        Err(ContractError::Unauthorized {})
    );
    assert_eq!(
        try_remove_path(GOV_ADDR.to_string(), &ibc, &gov, "c".to_string(), "d".to_string()),
        Ok(("c".to_string(), "d".to_string()))
    );
}

#[test]
fn reset_starts_a_new_window_for_the_named_quota_only() {
    let start = mock_time();
    let (mut deps, _) = instantiate(
        vec![PathMsg::new(
            "channel",
            "denom",
            vec![
                QuotaMsg::new("daily", RESET_TIME_DAILY, 10, 10),
                QuotaMsg::new("weekly", RESET_TIME_WEEKLY, 10, 10),
            ],
        )],
        start,
    );
    let mut rules = deps.load("channel", "denom").unwrap();
    for rule in rules.iter_mut() {
        rule.flow.add_flow(rate_limiter::state::FlowType::Out, u(77));
        rule.quota.channel_value = Some(u(1000));
    }
    deps.save(("channel".to_string(), "denom".to_string()), rules.clone());

    let now = start.plus_seconds(3600);
    deps.reset_path_quota(GOV_ADDR, "channel", "denom", "weekly", now).unwrap();
    let after = deps.load("channel", "denom").unwrap();
    assert_eq!(after[0], rules[0]);
    assert_eq!(after[1].flow.outflow, u(0));
    assert_eq!(after[1].flow.inflow, u(0));
    assert_eq!(after[1].flow.period_end, now.plus_seconds(RESET_TIME_WEEKLY));
    assert_eq!(after[1].quota, rules[1].quota);
}

#[test]
fn reset_is_for_the_governance_module_and_for_quotas_that_exist() {
    let start = mock_time();
    let (mut deps, _) = instantiate(
        vec![PathMsg::new("channel", "denom", vec![QuotaMsg::new("daily", RESET_TIME_DAILY, 10, 10)])],
        start,
    );
    assert_eq!(
        deps.reset_path_quota(IBC_ADDR, "channel", "denom", "daily", start).err(),
        Some(ContractError::Unauthorized {})
    );
    let not_found = |quota_id: &str, channel_id: &str| ContractError::QuotaNotFound {
        quota_id: quota_id.to_string(),
        channel_id: channel_id.to_string(),
        denom: "denom".to_string(),
    };
    // a path that is not registered
    assert_eq!(
        deps.reset_path_quota(GOV_ADDR, "other", "denom", "daily", start).err(),
        Some(not_found("daily", "other"))
    );
    // a quota that the path does not have
    assert_eq!(
        deps.reset_path_quota(GOV_ADDR, "channel", "denom", "weekly", start).err(),
        Some(not_found("weekly", "channel"))
    );
    assert!(deps.reset_path_quota(GOV_ADDR, "channel", "denom", "daily", start).is_ok());
}

#[test]
fn bypass_update_overwrites_the_first_entry_of_a_sender() {
    let ibc = IBC_ADDR.to_string();
    let gov = GOV_ADDR.to_string();
    let queue = vec![
        ("alice".to_string(), u(1)),
        ("bob".to_string(), u(2)),
        ("bob".to_string(), u(3)),
    ];
    let updated =
        bypass_update(IBC_ADDR.to_string(), &ibc, &gov, "bob".to_string(), queue.clone(), u(9))
            .unwrap();
    assert_eq!(
        updated,
        vec![("alice".to_string(), u(1)), ("bob".to_string(), u(9)), ("bob".to_string(), u(3))]
    );
    let updated =
        bypass_update(GOV_ADDR.to_string(), &ibc, &gov, "carol".to_string(), queue.clone(), u(4))
            .unwrap();
    assert_eq!(updated.len(), 4);
    assert_eq!(updated[..3], queue[..]);
    assert_eq!(updated[3], ("carol".to_string(), u(4)));
    assert_eq!(
        bypass_update("mallory".to_string(), &ibc, &gov, "bob".to_string(), queue, u(9)),
        Err(ContractError::Unauthorized {})
    );
}

#[test]
fn intents_are_for_the_modules_and_one_per_sender() {
    let ibc = IBC_ADDR.to_string();
    let gov = GOV_ADDR.to_string();
    let now = Timestamp::from_seconds(1700383122);
    let existing = Some((u(5), now));
    assert_eq!(
        submit_intent(now, "mallory".to_string(), &ibc, &gov, None, u(7)),
        Err(ContractError::Unauthorized {})
    );
    assert_eq!(
        submit_intent(now, "mallory".to_string(), &ibc, &gov, existing, u(7)),
        Err(ContractError::Unauthorized {})
    );
    assert_eq!(
        submit_intent(now, IBC_ADDR.to_string(), &ibc, &gov, existing, u(7)),
        Err(ContractError::IntentAlreadyPresent)
    );
    assert_eq!(
        submit_intent(now, IBC_ADDR.to_string(), &ibc, &gov, None, u(7)),
        Ok((u(7), Timestamp::from_seconds(1700383122 + 86400)))
    );
    assert_eq!(
        remove_intent("mallory".to_string(), &ibc, &gov, existing),
        Err(ContractError::Unauthorized {})
    );
    assert_eq!(
        remove_intent(GOV_ADDR.to_string(), &ibc, &gov, None),
        Err(ContractError::IntentNotPresent)
    );
    assert_eq!(remove_intent(GOV_ADDR.to_string(), &ibc, &gov, existing), Ok(()));
}

#[test]
fn intent_needs_the_exact_amount_and_the_time() {
    let unlock = Timestamp::from_seconds(1000);
    let intent = (u(500), unlock);
    assert!(intent_ok(intent, unlock, u(500)));
    assert!(intent_ok(intent, unlock.plus_nanos(1), u(500)));
    assert!(!intent_ok(intent, Timestamp::from_nanos(999_999_999_999), u(500)));
    assert!(!intent_ok(intent, unlock, u(499)));
    assert!(!intent_ok(intent, unlock, u(501)));
}
