use std::cmp::Ordering;

use apollo_environment_detector::{ComputeEnvironment, OrderingExt, Specificity};

#[test]
fn option_specificity() {
    assert_eq!(Some("3").specificity_cmp(&None), Some(Ordering::Greater));
    assert_eq!(Some("3").specificity_cmp(&Some("3")), Some(Ordering::Equal));
    assert_eq!(None.specificity_cmp(&Some("3")), Some(Ordering::Less));
    assert_eq!(Some("2").specificity_cmp(&Some("3")), None);
    assert_eq!(None::<&'static str>.specificity_cmp(&None), Some(Ordering::Equal));
}

#[test]
fn set_specificity() {
    let abc: &[&'static str] = &["a", "b", "c"];
    let ab: &[&'static str] = &["a", "b"];
    let ac: &[&'static str] = &["a", "c"];
    let cba: &[&'static str] = &["c", "b", "a", "a"];
    assert_eq!(abc.specificity_cmp(ab), Some(Ordering::Greater));
    assert_eq!(abc.specificity_cmp(abc), Some(Ordering::Equal));
    assert_eq!(abc.specificity_cmp(cba), Some(Ordering::Equal));
    assert_eq!(ab.specificity_cmp(abc), Some(Ordering::Less));
    assert_eq!(ab.specificity_cmp(ac), None);
}

#[test]
fn merge_table() {
    let g = Some(Ordering::Greater);
    let e = Some(Ordering::Equal);
    let l = Some(Ordering::Less);
    assert_eq!(g.merge_specificity(g), g);
    assert_eq!(g.merge_specificity(e), g);
    assert_eq!(g.merge_specificity(l), None);
    assert_eq!(e.merge_specificity(g), g);
    assert_eq!(e.merge_specificity(e), e);
    assert_eq!(e.merge_specificity(l), l);
    assert_eq!(l.merge_specificity(e), l);
    assert_eq!(l.merge_specificity(l), l);
    assert_eq!(l.merge_specificity(g), None);
    for x in [g, e, l, None] {
        assert_eq!(x.merge_specificity(None), None);
        assert_eq!(None.merge_specificity(x), None);
        for y in [g, e, l, None] {
            for z in [g, e, l, None] {
                assert_eq!(
                    x.merge_specificity(y).merge_specificity(z),
                    x.merge_specificity(y.merge_specificity(z))
                );
            }
        }
    }
}

#[test]
fn detector_specificity() {
    let aws_k8s = ComputeEnvironment::AwsKubernetes.detector();
    let k8s = ComputeEnvironment::Kubernetes.detector();
    let ec2 = ComputeEnvironment::AwsEc2.detector();
    let gcp_k8s = ComputeEnvironment::GcpKubernetes.detector();
    let apps = ComputeEnvironment::AzureContainerApps.detector();
    let aks = ComputeEnvironment::AzureKubernetes.detector();
    assert_eq!(aws_k8s.specificity_cmp(&k8s), Some(Ordering::Greater));
    assert_eq!(k8s.specificity_cmp(&aws_k8s), Some(Ordering::Less));
    assert_eq!(aws_k8s.specificity_cmp(&ec2), Some(Ordering::Greater));
    assert_eq!(aws_k8s.specificity_cmp(&gcp_k8s), None);
    assert_eq!(apps.specificity_cmp(&aks), Some(Ordering::Greater));
    assert_eq!(k8s.specificity_cmp(&ec2), None);
}

#[test]
fn detector_specificity_is_reflexive_and_antisymmetric() {
    let all = apollo_environment_detector::catalog();
    for a in &all {
        assert_eq!(a.specificity_cmp(a), Some(Ordering::Equal));
        for b in &all {
            if a.specificity_cmp(b) == Some(Ordering::Greater) {
                assert_eq!(b.specificity_cmp(a), Some(Ordering::Less));
            }
        }
    }
}
