use vstd::prelude::*;

use crate::models::{EntityType, QueueDescription, SubscriptionDescription, TopicDescription};

verus! {

broadcast use vstd::std_specs::vec::axiom_vec_index_decreases;

/// A node of the entity tree: a folder or an entity, with its children.
#[derive(Debug)]
pub struct TreeNode {
    pub id: String,
    pub label: String,
    pub entity_type: EntityType,
    pub path: String,
    pub depth: usize,
    pub expanded: bool,
    pub children: Vec<TreeNode>,
    pub message_count: Option<i64>,
    pub dlq_count: Option<i64>,
}

/// One visible row of the flattened tree.
#[derive(Debug, Clone)]
pub struct FlatNode {
    pub id: String,
    pub label: String,
    pub entity_type: EntityType,
    pub path: String,
    pub depth: usize,
    pub expanded: bool,
    pub has_children: bool,
    pub message_count: Option<i64>,
    pub dlq_count: Option<i64>,
}

/// The row that shows `n`.
pub open spec fn row_of(n: TreeNode) -> FlatNode {
    FlatNode {
        id: n.id,
        label: n.label,
        entity_type: n.entity_type,
        path: n.path,
        depth: n.depth,
        expanded: n.expanded,
        has_children: n.children@.len() > 0,
        message_count: n.message_count,
        dlq_count: n.dlq_count,
    }
}

/// The visible rows of `n`, depth first: `n` itself, then, if it is
/// expanded, the rows of each child in order.
pub open spec fn flatten_spec(n: TreeNode) -> Seq<FlatNode>
    decreases n, n.children@.len() + 1,
{
    seq![row_of(n)] + if n.expanded {
        children_rows(n, n.children@.len() as int)
    } else {
        Seq::empty()
    }
}

/// The rows of the first `k` children of `n`.
pub open spec fn children_rows(n: TreeNode, k: int) -> Seq<FlatNode>
    decreases n, k,
{
    if k <= 0 || k > n.children@.len() {
        Seq::empty()
    } else {
        children_rows(n, k - 1) + flatten_spec(n.children@[k - 1])
    }
}

impl TreeNode {
    /// An expanded folder with no children and no path.
    pub fn new_folder(id: &str, label: &str, entity_type: EntityType, depth: usize) -> (r: TreeNode)
        ensures
            r.id@ == id@,
            r.label@ == label@,
            r.entity_type == entity_type,
            r.path@.len() == 0,
            r.depth == depth,
            r.expanded,
            r.children@.len() == 0,
            r.message_count is None,
            r.dlq_count is None,
    {
        TreeNode {
            id: String::from_str(id),
            label: String::from_str(label),
            entity_type,
            path: String::new(),
            depth,
            expanded: true,
            children: Vec::new(),
            message_count: None,
            dlq_count: None,
        }
    }

    /// A collapsed entity at `path` with no children.
    pub fn new_entity(
        id: &str,
        label: &str,
        entity_type: EntityType,
        path: &str,
        depth: usize,
    ) -> (r: TreeNode)
        ensures
            r.id@ == id@,
            r.label@ == label@,
            r.entity_type == entity_type,
            r.path@ == path@,
            r.depth == depth,
            !r.expanded,
            r.children@.len() == 0,
            r.message_count is None,
            r.dlq_count is None,
    {
        TreeNode {
            id: String::from_str(id),
            label: String::from_str(label),
            entity_type,
            path: String::from_str(path),
            depth,
            expanded: false,
            children: Vec::new(),
            message_count: None,
            dlq_count: None,
        }
    }

    /// The visible rows of this tree, depth first, skipping the children
    /// of collapsed nodes.
    pub fn flatten(&self) -> (r: Vec<FlatNode>)
        ensures
            r@ == flatten_spec(*self),
    {
        let mut result: Vec<FlatNode> = Vec::new();
        self.flatten_inner(&mut result);
        assert(Seq::<FlatNode>::empty() + flatten_spec(*self) == flatten_spec(*self));
        result
    }

    fn flatten_inner(&self, out: &mut Vec<FlatNode>)
        ensures
            final(out)@ == old(out)@ + flatten_spec(*self),
        decreases *self,
    {
        let row = FlatNode {
            id: self.id.clone(),
            label: self.label.clone(),
            entity_type: self.entity_type,
            path: self.path.clone(),
            depth: self.depth,
            expanded: self.expanded,
            has_children: self.children.len() > 0,
            message_count: self.message_count,
            dlq_count: self.dlq_count,
        };
        out.push(row);
        let ghost start = out@;
        if self.expanded {
            let mut i: usize = 0;
            while i < self.children.len()
                invariant
                    i <= self.children@.len(),
                    out@ == start + children_rows(*self, i as int),
                decreases self.children@.len() - i,
            {
                let ghost before = out@;
                self.children[i].flatten_inner(out);
                assert(children_rows(*self, i + 1) == children_rows(*self, i as int) + flatten_spec(
                    self.children@[i as int],
                ));
                assert(before + flatten_spec(self.children@[i as int]) == start + children_rows(
                    *self,
                    i + 1,
                ));
                i = i + 1;
            }
            assert(old(out)@ + flatten_spec(*self) == start + children_rows(
                *self,
                self.children@.len() as int,
            ));
        } else {
            assert(old(out)@ + flatten_spec(*self) == start + Seq::<FlatNode>::empty());
            assert(start + Seq::<FlatNode>::empty() == start);
        }
    }
}


/// Whether `n` is the leaf that shows queue `q` with its active and
/// dead-lettered counts.
pub open spec fn queue_node_ok(n: TreeNode, q: (QueueDescription, i64, i64)) -> bool {
    &&& n.id@ == "q:"@ + q.0.name@
    &&& n.label@ == q.0.name@
    &&& n.entity_type == EntityType::Queue
    &&& n.path@ == q.0.name@
    &&& n.depth == 2
    &&& !n.expanded
    &&& n.children@.len() == 0
    &&& n.message_count == Some(q.1)
    &&& n.dlq_count == Some(q.2)
}

/// Whether `n` is the leaf that shows subscription `s` of `topic`.
pub open spec fn subscription_node_ok(
    n: TreeNode,
    topic: Seq<char>,
    s: (SubscriptionDescription, i64, i64),
) -> bool {
    &&& n.id@ == "s:"@ + topic + ":"@ + s.0.name@
    &&& n.label@ == s.0.name@
    &&& n.entity_type == EntityType::Subscription
    &&& n.path@ == topic + "/Subscriptions/"@ + s.0.name@
    &&& n.depth == 4
    &&& !n.expanded
    &&& n.children@.len() == 0
    &&& n.message_count == Some(s.1)
    &&& n.dlq_count == Some(s.2)
}

/// Whether `f` is the expanded folder of the subscriptions `subs` of `topic`.
pub open spec fn subscription_folder_ok(
    f: TreeNode,
    topic: Seq<char>,
    subs: Seq<(SubscriptionDescription, i64, i64)>,
) -> bool {
    &&& f.id@ == "t:"@ + topic + ":subs"@
    &&& f.label@ == "Subscriptions"@
    &&& f.entity_type == EntityType::SubscriptionFolder
    &&& f.path@.len() == 0
    &&& f.depth == 3
    &&& f.expanded
    &&& f.message_count is None && f.dlq_count is None
    &&& f.children@.len() == subs.len()
    &&& forall|i: int|
        0 <= i < subs.len() ==> subscription_node_ok(#[trigger] f.children@[i], topic, subs[i])
}

/// Whether `n` shows topic `t`, with a folder of its subscriptions when they
/// could be listed.
pub open spec fn topic_node_ok(
    n: TreeNode,
    t: TopicDescription,
    subs: Option<Vec<(SubscriptionDescription, i64, i64)>>,
) -> bool {
    &&& n.id@ == "t:"@ + t.name@
    &&& n.label@ == t.name@
    &&& n.entity_type == EntityType::Topic
    &&& n.path@ == t.name@
    &&& n.depth == 2
    &&& !n.expanded
    &&& n.message_count is None && n.dlq_count is None
    &&& match subs {
        Some(ss) => n.children@.len() == 1 && subscription_folder_ok(n.children@[0], t.name@, ss@),
        None => n.children@.len() == 0,
    }
}

/// The subscriptions listed for the `i`-th topic, if any.
pub open spec fn subs_at(
    subs: Seq<Option<Vec<(SubscriptionDescription, i64, i64)>>>,
    i: int,
) -> Option<Vec<(SubscriptionDescription, i64, i64)>> {
    if 0 <= i < subs.len() {
        subs[i]
    } else {
        None
    }
}

/// Whether `root` is the entity tree of `namespace`: an expanded root with a
/// folder of the queues and a folder of the topics, in the order listed.
pub open spec fn entity_tree_ok(
    root: TreeNode,
    namespace: Seq<char>,
    queues: Seq<(QueueDescription, i64, i64)>,
    topics: Seq<TopicDescription>,
    subs: Seq<Option<Vec<(SubscriptionDescription, i64, i64)>>>,
) -> bool {
    &&& root.id@ == "root"@
    &&& root.label@ == namespace
    &&& root.entity_type == EntityType::Namespace
    &&& root.depth == 0
    &&& root.expanded
    &&& root.children@.len() == 2
    &&& ({
        let qf = root.children@[0];
        &&& qf.id@ == "queues"@ && qf.label@ == "Queues"@
        &&& qf.entity_type == EntityType::QueueFolder && qf.depth == 1 && qf.expanded
        &&& qf.children@.len() == queues.len()
        &&& forall|i: int| 0 <= i < queues.len() ==> queue_node_ok(#[trigger] qf.children@[i], queues[i])
    })
    &&& ({
        let tf = root.children@[1];
        &&& tf.id@ == "topics"@ && tf.label@ == "Topics"@
        &&& tf.entity_type == EntityType::TopicFolder && tf.depth == 1 && tf.expanded
        &&& tf.children@.len() == topics.len()
        &&& forall|i: int|
            0 <= i < topics.len() ==> topic_node_ok(#[trigger] tf.children@[i], topics[i], subs_at(subs, i))
    })
}

fn subscription_folder(topic: &String, subs: &Vec<(SubscriptionDescription, i64, i64)>) -> (r: TreeNode)
    ensures
        subscription_folder_ok(r, topic@, subs@),
{
    let id = String::from_str("t:").concat(topic.as_str()).concat(":subs");
    let mut folder = TreeNode::new_folder(id.as_str(), "Subscriptions", EntityType::SubscriptionFolder, 3);
    let mut i: usize = 0;
    while i < subs.len()
        invariant
            i <= subs@.len(),
            folder.id@ == "t:"@ + topic@ + ":subs"@,
            folder.label@ == "Subscriptions"@,
            folder.entity_type == EntityType::SubscriptionFolder,
            folder.path@.len() == 0,
            folder.depth == 3,
            folder.expanded,
            folder.message_count is None && folder.dlq_count is None,
            folder.children@.len() == i,
            forall|j: int| 0 <= j < i ==> subscription_node_ok(#[trigger] folder.children@[j], topic@, subs@[j]),
        decreases subs@.len() - i,
    {
        let (s, active, dlq) = &subs[i];
        let sid = String::from_str("s:").concat(topic.as_str()).concat(":").concat(s.name.as_str());
        let path = topic.clone().concat("/Subscriptions/").concat(s.name.as_str());
        let mut node = TreeNode::new_entity(sid.as_str(), s.name.as_str(), EntityType::Subscription, path.as_str(), 4);
        node.message_count = Some(*active);
        node.dlq_count = Some(*dlq);
        folder.children.push(node);
        i = i + 1;
    }
    folder
}

/// The entity tree of a namespace from its listed queues (with active and
/// dead-lettered counts) and topics; `subscriptions[i]` holds the
/// subscriptions of the `i`-th topic, or nothing where they could not be
/// listed.
pub fn build_tree(
    namespace: &str,
    queues: &Vec<(QueueDescription, i64, i64)>,
    topics: &Vec<TopicDescription>,
    subscriptions: &Vec<Option<Vec<(SubscriptionDescription, i64, i64)>>>,
) -> (r: TreeNode)
    ensures
        entity_tree_ok(r, namespace@, queues@, topics@, subscriptions@),
{
    let mut root = TreeNode::new_folder("root", namespace, EntityType::Namespace, 0);
    let mut qf = TreeNode::new_folder("queues", "Queues", EntityType::QueueFolder, 1);
    let mut i: usize = 0;
    while i < queues.len()
        invariant
            i <= queues@.len(),
            qf.id@ == "queues"@ && qf.label@ == "Queues"@,
            qf.entity_type == EntityType::QueueFolder && qf.depth == 1 && qf.expanded,
            qf.children@.len() == i,
            forall|j: int| 0 <= j < i ==> queue_node_ok(#[trigger] qf.children@[j], queues@[j]),
        decreases queues@.len() - i,
    {
        let (q, active, dlq) = &queues[i];
        let id = String::from_str("q:").concat(q.name.as_str());
        let mut node = TreeNode::new_entity(id.as_str(), q.name.as_str(), EntityType::Queue, q.name.as_str(), 2);
        node.message_count = Some(*active);
        node.dlq_count = Some(*dlq);
        qf.children.push(node);
        i = i + 1;
    }
    let mut tf = TreeNode::new_folder("topics", "Topics", EntityType::TopicFolder, 1);
    let mut k: usize = 0;
    while k < topics.len()
        invariant
            k <= topics@.len(),
            tf.id@ == "topics"@ && tf.label@ == "Topics"@,
            tf.entity_type == EntityType::TopicFolder && tf.depth == 1 && tf.expanded,
            tf.children@.len() == k,
            forall|j: int|
                0 <= j < k ==> topic_node_ok(#[trigger] tf.children@[j], topics@[j], subs_at(subscriptions@, j)),
        decreases topics@.len() - k,
    {
        let t = &topics[k];
        let id = String::from_str("t:").concat(t.name.as_str());
        let mut node = TreeNode::new_entity(id.as_str(), t.name.as_str(), EntityType::Topic, t.name.as_str(), 2);
        if k < subscriptions.len() {
            match &subscriptions[k] {
                Some(subs) => {
                    node.children.push(subscription_folder(&t.name, subs));
                },
                None => {},
            }
        }
        tf.children.push(node);
        k = k + 1;
    }
    root.children.push(qf);
    root.children.push(tf);
    root
}

} // verus!
