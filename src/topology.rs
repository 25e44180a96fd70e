//! The broker constructs behind delayed retries, as a list of declarations, and what
//! declaring them does to a broker.
use vstd::prelude::*;

verus! {

/// Exchange that routes expired messages to the wait queue.
pub const DLX_EXCHANGE: &'static str = "retries.dlx-ex";

/// Exchange that routes messages to the exec queue.
pub const RETRY_EXCHANGE: &'static str = "retries.retry-ex";

pub const WAIT_QUEUE: &'static str = "retries.wait-queue";

/// The queue the retry workers consume.
pub const EXEC_QUEUE: &'static str = "retries.exec-queue";

pub const RETRY_ROUTING_KEY: &'static str = "do-retry";

pub enum ArgValue {
    Text(String),
    Number(u32),
}

/// One entry of the argument table of a queue or a binding.
pub struct Argument {
    pub key: String,
    pub value: ArgValue,
}

/// One idempotent declaration on the broker. Every exchange here is a direct one.
pub enum Declaration {
    Exchange { name: String },
    Queue { name: String, arguments: Vec<Argument> },
    Binding { queue: String, exchange: String, routing_key: String, arguments: Vec<Argument> },
}

pub enum ArgModel {
    Text(Seq<char>),
    Number(u32),
}

pub enum DeclModel {
    Exchange(Seq<char>),
    Queue(Seq<char>, Seq<(Seq<char>, ArgModel)>),
    Binding(Seq<char>, Seq<char>, Seq<char>, Seq<(Seq<char>, ArgModel)>),
}

pub open spec fn arg_model(a: Argument) -> (Seq<char>, ArgModel) {
    (
        a.key@,
        match a.value {
            ArgValue::Text(t) => ArgModel::Text(t@),
            ArgValue::Number(n) => ArgModel::Number(n),
        },
    )
}

pub open spec fn args_model(a: Seq<Argument>) -> Seq<(Seq<char>, ArgModel)> {
    a.map_values(|x: Argument| arg_model(x))
}

pub open spec fn decl_model(d: Declaration) -> DeclModel {
    match d {
        Declaration::Exchange { name } => DeclModel::Exchange(name@),
        Declaration::Queue { name, arguments } => DeclModel::Queue(name@, args_model(arguments@)),
        Declaration::Binding { queue, exchange, routing_key, arguments } => DeclModel::Binding(
            queue@,
            exchange@,
            routing_key@,
            args_model(arguments@),
        ),
    }
}

pub open spec fn plan_model(p: Seq<Declaration>) -> Seq<DeclModel> {
    p.map_values(|d: Declaration| decl_model(d))
}

/// The dead-letter ladder: two direct exchanges, the wait queue bound to the
/// dead-letter exchange, and the exec queue, which dead-letters there and is bound
/// to the retry exchange with the backoff delay `ttl_ms`.
pub open spec fn retry_topology_model(ttl_ms: u32) -> Seq<DeclModel> {
    seq![
        DeclModel::Exchange(DLX_EXCHANGE@),
        DeclModel::Exchange(RETRY_EXCHANGE@),
        DeclModel::Queue(WAIT_QUEUE@, seq![]),
        DeclModel::Binding(WAIT_QUEUE@, DLX_EXCHANGE@, RETRY_ROUTING_KEY@, seq![]),
        DeclModel::Queue(
            EXEC_QUEUE@,
            seq![
                ("x-dead-letter-exchange"@, ArgModel::Text(DLX_EXCHANGE@)),
                ("x-dead-letter-routing-key"@, ArgModel::Text(RETRY_ROUTING_KEY@)),
            ],
        ),
        DeclModel::Binding(
            EXEC_QUEUE@,
            RETRY_EXCHANGE@,
            RETRY_ROUTING_KEY@,
            seq![
                ("x-message-ttl"@, ArgModel::Number(ttl_ms)),
                ("x-dead-letter-exchange"@, ArgModel::Text(RETRY_EXCHANGE@)),
            ],
        ),
    ]
}

fn text_arg(key: &str, value: &str) -> (r: Argument)
    ensures
        arg_model(r) == (key@, ArgModel::Text(value@)),
{
    Argument { key: String::from_str(key), value: ArgValue::Text(String::from_str(value)) }
}

/// The declarations that set up the retry ladder, in order. They must match what a
/// broker already holds argument for argument, or the broker refuses them; the wait
/// queue is declared without arguments.
pub fn retry_topology(ttl_ms: u32) -> (r: Vec<Declaration>)
    ensures
        plan_model(r@) == retry_topology_model(ttl_ms),
{
    let mut exec_args: Vec<Argument> = Vec::new();
    exec_args.push(text_arg("x-dead-letter-exchange", DLX_EXCHANGE));
    exec_args.push(text_arg("x-dead-letter-routing-key", RETRY_ROUTING_KEY));
    let mut bind_args: Vec<Argument> = Vec::new();
    bind_args.push(
        Argument {
            key: String::from_str("x-message-ttl"),
            value: ArgValue::Number(ttl_ms),
        },
    );
    bind_args.push(text_arg("x-dead-letter-exchange", RETRY_EXCHANGE));
    assert(args_model(exec_args@) =~= seq![
        ("x-dead-letter-exchange"@, ArgModel::Text(DLX_EXCHANGE@)),
        ("x-dead-letter-routing-key"@, ArgModel::Text(RETRY_ROUTING_KEY@)),
    ]);
    assert(args_model(bind_args@) =~= seq![
        ("x-message-ttl"@, ArgModel::Number(ttl_ms)),
        ("x-dead-letter-exchange"@, ArgModel::Text(RETRY_EXCHANGE@)),
    ]);
    let mut r: Vec<Declaration> = Vec::new();
    r.push(Declaration::Exchange { name: String::from_str(DLX_EXCHANGE) });
    r.push(Declaration::Exchange { name: String::from_str(RETRY_EXCHANGE) });
    r.push(Declaration::Queue { name: String::from_str(WAIT_QUEUE), arguments: Vec::new() });
    r.push(
        Declaration::Binding {
            queue: String::from_str(WAIT_QUEUE),
            exchange: String::from_str(DLX_EXCHANGE),
            routing_key: String::from_str(RETRY_ROUTING_KEY),
            arguments: Vec::new(),
        },
    );
    r.push(Declaration::Queue { name: String::from_str(EXEC_QUEUE), arguments: exec_args });
    r.push(
        Declaration::Binding {
            queue: String::from_str(EXEC_QUEUE),
            exchange: String::from_str(RETRY_EXCHANGE),
            routing_key: String::from_str(RETRY_ROUTING_KEY),
            arguments: bind_args,
        },
    );
    assert(args_model(Seq::<Argument>::empty()) =~= seq![]);
    assert(plan_model(r@) =~= retry_topology_model(ttl_ms));
    r
}

/// The part of a broker's state that declarations touch.
pub struct BrokerModel {
    pub exchanges: Set<Seq<char>>,
    /// Each queue with the arguments it was declared with.
    pub queues: Map<Seq<char>, Seq<(Seq<char>, ArgModel)>>,
    /// (queue, exchange, routing key, arguments)
    pub bindings: Set<(Seq<char>, Seq<char>, Seq<char>, Seq<(Seq<char>, ArgModel)>)>,
}

pub open spec fn empty_broker() -> BrokerModel {
    BrokerModel { exchanges: Set::empty(), queues: Map::empty(), bindings: Set::empty() }
}

/// Declaring on a broker: `None` is the broker's refusal (a queue redeclared with other
/// arguments, or a binding to a queue or an exchange that does not exist).
pub open spec fn declare(b: BrokerModel, d: DeclModel) -> Option<BrokerModel> {
    match d {
        DeclModel::Exchange(name) => Some(BrokerModel { exchanges: b.exchanges.insert(name), ..b }),
        DeclModel::Queue(name, args) => if b.queues.contains_key(name) && b.queues[name] != args {
            None
        } else {
            Some(BrokerModel { queues: b.queues.insert(name, args), ..b })
        },
        DeclModel::Binding(queue, exchange, key, args) => if b.queues.contains_key(queue)
            && b.exchanges.contains(exchange) {
            Some(BrokerModel { bindings: b.bindings.insert((queue, exchange, key, args)), ..b })
        } else {
            None
        },
    }
}

pub open spec fn declare_all(b: BrokerModel, p: Seq<DeclModel>) -> Option<BrokerModel>
    decreases p.len(),
{
    if p.len() == 0 {
        Some(b)
    } else {
        match declare(b, p[0]) {
            None => None,
            Some(b2) => declare_all(b2, p.drop_first()),
        }
    }
}

/// The broker already holds what `d` declares.
pub open spec fn holds(b: BrokerModel, d: DeclModel) -> bool {
    match d {
        DeclModel::Exchange(name) => b.exchanges.contains(name),
        DeclModel::Queue(name, args) => b.queues.contains_key(name) && b.queues[name] == args,
        DeclModel::Binding(queue, exchange, key, args) => b.queues.contains_key(queue)
            && b.exchanges.contains(exchange) && b.bindings.contains((queue, exchange, key, args)),
    }
}

/// `b2` keeps everything of `b1`.
pub open spec fn extends(b1: BrokerModel, b2: BrokerModel) -> bool {
    &&& b1.exchanges.subset_of(b2.exchanges)
    &&& b1.bindings.subset_of(b2.bindings)
    &&& forall|q: Seq<char>| #[trigger]
        b1.queues.contains_key(q) ==> b2.queues.contains_key(q) && b2.queues[q] == b1.queues[q]
}

proof fn lemma_declare_held(b: BrokerModel, d: DeclModel)
    requires
        holds(b, d),
    ensures
        declare(b, d) == Some(b),
{
    match d {
        DeclModel::Exchange(name) => {
            assert(b.exchanges.insert(name) =~= b.exchanges);
        },
        DeclModel::Queue(name, args) => {
            assert(b.queues.insert(name, args) =~= b.queues);
        },
        DeclModel::Binding(queue, exchange, key, args) => {
            assert(b.bindings.insert((queue, exchange, key, args)) =~= b.bindings);
        },
    }
}

proof fn lemma_declare_grows(b: BrokerModel, d: DeclModel)
    requires
        declare(b, d) is Some,
    ensures
        holds(declare(b, d)->0, d),
        extends(b, declare(b, d)->0),
{
}

proof fn lemma_declare_all_holds(b: BrokerModel, p: Seq<DeclModel>)
    requires
        declare_all(b, p) is Some,
    ensures
        extends(b, declare_all(b, p)->0),
        forall|i: int| 0 <= i < p.len() ==> holds(declare_all(b, p)->0, #[trigger] p[i]),
    decreases p.len(),
{
    if p.len() > 0 {
        let b2 = declare(b, p[0])->0;
        lemma_declare_grows(b, p[0]);
        lemma_declare_all_holds(b2, p.drop_first());
        let b1 = declare_all(b, p)->0;
        assert forall|i: int| 0 <= i < p.len() implies holds(b1, #[trigger] p[i]) by {
            if i > 0 {
                assert(p[i] == p.drop_first()[i - 1]);
            }
        }
    }
}

proof fn lemma_declare_all_held(b: BrokerModel, p: Seq<DeclModel>)
    requires
        forall|i: int| 0 <= i < p.len() ==> holds(b, #[trigger] p[i]),
    ensures
        declare_all(b, p) == Some(b),
    decreases p.len(),
{
    if p.len() > 0 {
        lemma_declare_held(b, p[0]);
        assert forall|i: int| 0 <= i < p.len() - 1 implies holds(b, #[trigger] p.drop_first()[i]) by {
            assert(p.drop_first()[i] == p[i + 1]);
        }
        lemma_declare_all_held(b, p.drop_first());
    }
}

/// Declaring a plan a second time, on the broker the first time left, succeeds and
/// changes nothing: no error, no second copy of any binding.
pub proof fn lemma_redeclare_is_noop(b: BrokerModel, p: Seq<DeclModel>)
    requires
        declare_all(b, p) is Some,
    ensures
        declare_all(declare_all(b, p)->0, p) == declare_all(b, p),
{
    lemma_declare_all_holds(b, p);
    lemma_declare_all_held(declare_all(b, p)->0, p);
}

/// The retry ladder declares cleanly on an empty broker, and once declared, declaring
/// it again succeeds and leaves the broker as it was.
pub proof fn lemma_retry_topology_idempotent(ttl_ms: u32)
    ensures
        declare_all(empty_broker(), retry_topology_model(ttl_ms)) is Some,
        declare_all(
            declare_all(empty_broker(), retry_topology_model(ttl_ms))->0,
            retry_topology_model(ttl_ms),
        ) == declare_all(empty_broker(), retry_topology_model(ttl_ms)),
{
    reveal_strlit("retries.wait-queue");
    reveal_strlit("retries.exec-queue");
    let p = retry_topology_model(ttl_ms);
    assert(WAIT_QUEUE@[8] != EXEC_QUEUE@[8]);
    assert(declare_all(empty_broker(), p) is Some) by {
        reveal_with_fuel(declare_all, 7);
    }
    lemma_redeclare_is_noop(empty_broker(), p);
}

} // verus!
