//! Pod affinity rules and the default anti-affinity of the connector role.
//!
//! The default configuration biases pods of the same cluster and role apart,
//! on a best-effort basis, with weight 70 on the node hostname topology.
use vstd::prelude::*;

use crate::crd::EDCRole;
pub use crate::kvlist::{pair_view, pairs_view};

verus! {

/// A label selector: plain match labels.
pub struct LabelSelectorModel {
    pub match_labels: Vec<(String, String)>,
}

/// Ghost image of [`LabelSelectorModel`].
pub ghost struct LabelSelectorView {
    pub match_labels: Seq<(Seq<char>, Seq<char>)>,
}

impl View for LabelSelectorModel {
    type V = LabelSelectorView;

    open spec fn view(&self) -> LabelSelectorView {
        LabelSelectorView { match_labels: pairs_view(self.match_labels@) }
    }
}

/// A pod (anti-)affinity term: pods matched by labels, on a topology domain.
pub struct AffinityTerm {
    pub match_labels: Vec<(String, String)>,
    pub topology_key: String,
}

/// Ghost image of [`AffinityTerm`].
pub ghost struct AffinityTermView {
    pub match_labels: Seq<(Seq<char>, Seq<char>)>,
    pub topology_key: Seq<char>,
}

impl View for AffinityTerm {
    type V = AffinityTermView;

    open spec fn view(&self) -> AffinityTermView {
        AffinityTermView {
            match_labels: pairs_view(self.match_labels@),
            topology_key: self.topology_key@,
        }
    }
}

/// A preferred (weighted, best-effort) affinity term.
pub struct WeightedAffinityTerm {
    pub weight: i32,
    pub term: AffinityTerm,
}

/// Ghost image of [`WeightedAffinityTerm`].
pub ghost struct WeightedAffinityTermView {
    pub weight: i32,
    pub term: AffinityTermView,
}

impl View for WeightedAffinityTerm {
    type V = WeightedAffinityTermView;

    open spec fn view(&self) -> WeightedAffinityTermView {
        WeightedAffinityTermView { weight: self.weight, term: self.term@ }
    }
}

/// Preferred and required terms of one affinity kind.
pub struct PodAffinityRules {
    pub preferred: Vec<WeightedAffinityTerm>,
    pub required: Vec<AffinityTerm>,
}

/// Ghost image of [`PodAffinityRules`].
pub ghost struct PodAffinityRulesView {
    pub preferred: Seq<WeightedAffinityTermView>,
    pub required: Seq<AffinityTermView>,
}

/// The views of a list of affinity terms.
pub open spec fn aterms_view(s: Seq<AffinityTerm>) -> Seq<AffinityTermView> {
    s.map_values(|t: AffinityTerm| t@)
}

/// The views of a list of weighted affinity terms.
pub open spec fn wterms_view(s: Seq<WeightedAffinityTerm>) -> Seq<WeightedAffinityTermView> {
    s.map_values(|t: WeightedAffinityTerm| t@)
}

impl View for PodAffinityRules {
    type V = PodAffinityRulesView;

    open spec fn view(&self) -> PodAffinityRulesView {
        PodAffinityRulesView {
            preferred: wterms_view(self.preferred@),
            required: aterms_view(self.required@),
        }
    }
}

/// The affinity block of a merged configuration. Every field is optional;
/// an absent field leaves scheduling unconstrained in that dimension.
pub struct StackableAffinity {
    pub pod_affinity: Option<PodAffinityRules>,
    pub pod_anti_affinity: Option<PodAffinityRules>,
    pub node_selector: Option<LabelSelectorModel>,
}

/// Ghost image of [`StackableAffinity`].
pub ghost struct StackableAffinityView {
    pub pod_affinity: Option<PodAffinityRulesView>,
    pub pod_anti_affinity: Option<PodAffinityRulesView>,
    pub node_selector: Option<LabelSelectorView>,
}

impl View for StackableAffinity {
    type V = StackableAffinityView;

    open spec fn view(&self) -> StackableAffinityView {
        StackableAffinityView {
            pod_affinity: match self.pod_affinity {
                Some(ref p) => Some(p@),
                None => None,
            },
            pod_anti_affinity: match self.pod_anti_affinity {
                Some(ref p) => Some(p@),
                None => None,
            },
            node_selector: match self.node_selector {
                Some(ref p) => Some(p@),
                None => None,
            },
        }
    }
}

/// The labels selecting all pods of one role of one cluster.
pub open spec fn role_selector_view(cluster_name: Seq<char>, role: Seq<char>) -> Seq<
    (Seq<char>, Seq<char>),
> {
    seq![
        ("app.kubernetes.io/name"@, "edc"@),
        ("app.kubernetes.io/instance"@, cluster_name),
        ("app.kubernetes.io/component"@, role),
    ]
}

/// The default affinity: a preferred anti-affinity of weight 70 between
/// pods of the same cluster and role, keyed on the node hostname.
pub open spec fn default_affinity_view(cluster_name: Seq<char>, role: Seq<char>)
    -> StackableAffinityView {
    StackableAffinityView {
        pod_affinity: None,
        pod_anti_affinity: Some(
            PodAffinityRulesView {
                preferred: seq![
                    WeightedAffinityTermView {
                        weight: 70,
                        term: AffinityTermView {
                            match_labels: role_selector_view(cluster_name, role),
                            topology_key: "kubernetes.io/hostname"@,
                        },
                    },
                ],
                required: Seq::empty(),
            },
        ),
        node_selector: None,
    }
}

/// Builds the label pairs selecting the pods of a role.
pub fn role_selector_labels(cluster_name: &str, role: &EDCRole) -> (r: Vec<(String, String)>)
    ensures
        pairs_view(r@) == role_selector_view(cluster_name@, role.name_view()),
{
    let role_name = role.as_str();
    let mut labels: Vec<(String, String)> = Vec::new();
    labels.push((String::from_str("app.kubernetes.io/name"), String::from_str("edc")));
    labels.push((String::from_str("app.kubernetes.io/instance"), String::from_str(cluster_name)));
    labels.push((String::from_str("app.kubernetes.io/component"), String::from_str(role_name)));
    proof {
        assert(pairs_view(labels@) =~= role_selector_view(cluster_name@, role.name_view()));
    }
    labels
}

/// The default anti-affinity fragment of a cluster's role.
pub fn get_affinity(cluster_name: &str, role: &EDCRole) -> (r: StackableAffinity)
    ensures
        r@ == default_affinity_view(cluster_name@, role.name_view()),
{
    let match_labels = role_selector_labels(cluster_name, role);
    let term = AffinityTerm { match_labels, topology_key: String::from_str("kubernetes.io/hostname") };
    let weighted = WeightedAffinityTerm { weight: 70, term };
    let mut preferred: Vec<WeightedAffinityTerm> = Vec::new();
    preferred.push(weighted);
    let rules = PodAffinityRules { preferred, required: Vec::new() };
    let r = StackableAffinity {
        pod_affinity: None,
        pod_anti_affinity: Some(rules),
        node_selector: None,
    };
    proof {
        let goal = default_affinity_view(cluster_name@, role.name_view());
        assert(r@.pod_anti_affinity->Some_0.preferred =~= goal.pod_anti_affinity->Some_0.preferred);
        assert(r@.pod_anti_affinity->Some_0.required =~= goal.pod_anti_affinity->Some_0.required);
        assert(r@.pod_anti_affinity->Some_0 == goal.pod_anti_affinity->Some_0);
        assert(r@ == goal);
    }
    r
}

} // verus!
