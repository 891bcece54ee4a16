//! Core of a Kubernetes operator for a connector cluster.
//!
//! The crate holds the verified heart of the operator: the typed model of the
//! cluster custom resource, the three-tier configuration merge, the property
//! resolver, the deterministic synthesis of the desired Kubernetes objects
//! (Services, ConfigMap, StatefulSet per role-group), and the reconciliation
//! decisions (status conditions, orphan pruning, retry policy). All I/O —
//! watching the cluster, applying and deleting objects — lives outside, in an
//! unverified shell that feeds this crate plain values.
pub mod affinity;
pub mod controller;
pub mod crd;
pub mod k8s;
pub mod kvlist;
pub mod namelist;
pub mod product_logging;
pub mod properties;
pub mod strcmp;
pub mod strnum;
