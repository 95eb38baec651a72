use upgrade_job::error::UpgradeError;
use upgrade_job::helm::client::{HelmClient, HelmReleaseElement, HELM_COMMAND};
use upgrade_job::helm::upgrade::{chart_is, chart_variant, variant_from, HelmChartVariant, HelmUpgrade};
use upgrade_job::opts::CliArgs;
use upgrade_job::pattern::search_result;

fn opts() -> CliArgs {
    CliArgs {
        release_name: "mayastor".to_string(),
        namespace: "storage".to_string(),
        rest_endpoint: "http://api-rest:8081".to_string(),
        pod_name: "upgrade-job-x".to_string(),
        umbrella_chart_dir: Some("/charts/umbrella".to_string()),
        core_chart_dir: None,
        restart_data_plane: true,
    }
}

fn release(name: &str, chart: &str) -> HelmReleaseElement {
    HelmReleaseElement { name: name.to_string(), chart: chart.to_string() }
}

fn strings(items: &[&str]) -> Vec<String> {
    items.iter().map(|s| s.to_string()).collect()
}

#[test]
fn arguments_hand_out_copies_of_their_fields() {
    let opts = opts();
    assert_eq!(opts.release_name(), "mayastor");
    assert_eq!(opts.namespace(), "storage");
    assert_eq!(opts.rest_endpoint(), "http://api-rest:8081");
    assert_eq!(opts.pod_name(), "upgrade-job-x");
    assert_eq!(opts.umbrella_chart_dir(), Some("/charts/umbrella".to_string()));
    assert_eq!(opts.core_chart_dir(), None);
    assert!(opts.restart_data_plane());
}

#[test]
fn release_element_hands_out_name_and_chart() {
    let element = release("mayastor", "mayastor-2.0.0");
    assert_eq!(element.name(), "mayastor");
    assert_eq!(element.chart(), "mayastor-2.0.0");
    assert_eq!(element.clone(), element);
}

#[test]
fn client_is_made_for_the_namespace_of_the_arguments() {
    assert_eq!(HelmClient::default(&opts()), HelmClient { namespace: "storage".to_string() });
    assert_eq!(HELM_COMMAND, "helm");
}

#[test]
fn list_arguments_end_with_the_output_format() {
    let client = HelmClient::default(&opts());
    assert_eq!(
        client.list_args(None),
        strings(&["list", "-n", "storage", "--deployed", "-o", "yaml"])
    );
    assert_eq!(
        client.list_args(Some(strings(&["--short", "--max", "3"]))),
        strings(&["list", "-n", "storage", "--deployed", "--short", "--max", "3", "-o", "yaml"])
    );
    assert_eq!(
        client.list_args(Some(vec![])),
        strings(&["list", "-n", "storage", "--deployed", "-o", "yaml"])
    );
}

#[test]
fn upgrade_arguments_name_release_chart_and_namespace() {
    let client = HelmClient::default(&opts());
    assert_eq!(
        client.upgrade_args("mayastor".to_string(), "/charts/umbrella".to_string(), None),
        strings(&["upgrade", "mayastor", "/charts/umbrella", "-n", "storage"])
    );
    assert_eq!(
        client.upgrade_args(
            "mayastor".to_string(),
            "/charts/umbrella".to_string(),
            Some(strings(&["--wait"]))
        ),
        strings(&["upgrade", "mayastor", "/charts/umbrella", "-n", "storage", "--wait"])
    );
}

#[test]
fn release_info_finds_the_first_release_of_the_name() {
    let client = HelmClient::default(&opts());
    let list = vec![
        release("other", "core-1.0.0"),
        release("mayastor", "mayastor-2.0.0"),
        release("mayastor", "mayastor-9.9.9"),
    ];
    assert_eq!(HelmClient::find_release(&list, &"mayastor".to_string()), Some(1));
    assert_eq!(HelmClient::find_release(&list, &"other".to_string()), Some(0));
    assert_eq!(HelmClient::find_release(&list, &"missing".to_string()), None);
    assert_eq!(HelmClient::find_release(&vec![], &"mayastor".to_string()), None);
    assert_eq!(
        client.release_info(list, "mayastor".to_string()),
        release("mayastor", "mayastor-2.0.0")
    );
}

#[test]
fn chart_field_tells_the_chart() {
    assert_eq!(chart_variant("mayastor-2.0.0"), Ok(HelmChartVariant::Umbrella));
    assert_eq!(chart_variant("mayastor-12.345.6789"), Ok(HelmChartVariant::Umbrella));
    assert_eq!(chart_variant("core-0.0.1"), Ok(HelmChartVariant::Core));
    assert_eq!(chart_is(HelmChartVariant::Core, "core-0.0.1"), Ok(true));
    assert_eq!(chart_is(HelmChartVariant::Umbrella, "core-0.0.1"), Ok(false));
}

#[test]
fn chart_field_of_another_chart_has_no_chart_directory() {
    for chart in [
        "etcd-8.6.0",
        "mayastor",
        "mayastor-2.0",
        "mayastor-2.0.0-rc1",
        "xmayastor-2.0.0",
        "mayastor-2.0.0\n",
        "core-1.2.x",
        "",
    ] {
        assert_eq!(
            chart_variant(chart),
            Err(UpgradeError::NoInputHelmChartDir { chart_name: chart.to_string() })
        );
    }
}

#[test]
fn variant_is_decided_umbrella_first() {
    let broken = || Err(UpgradeError::RegexCompile { expression: "(".to_string() });
    assert_eq!(variant_from("c", Ok(true), Ok(true)), Ok(HelmChartVariant::Umbrella));
    assert_eq!(variant_from("c", Ok(true), broken()), Ok(HelmChartVariant::Umbrella));
    assert_eq!(variant_from("c", Ok(false), Ok(true)), Ok(HelmChartVariant::Core));
    assert_eq!(
        variant_from("c", Ok(false), Ok(false)),
        Err(UpgradeError::NoInputHelmChartDir { chart_name: "c".to_string() })
    );
    let refused = Err(UpgradeError::RegexCompile { expression: "(".to_string() });
    assert_eq!(variant_from("c", broken(), Ok(true)), refused);
    assert_eq!(variant_from("c", Ok(false), broken()), refused);
}

#[test]
fn search_result_names_the_expression_that_did_not_compile() {
    assert_eq!(search_result("a+".to_string(), Ok(true)), Ok(true));
    assert_eq!(search_result("a+".to_string(), Ok(false)), Ok(false));
    let error = regex::Regex::new("a(").unwrap_err();
    assert_eq!(
        search_result("a(".to_string(), Err(error)),
        Err(UpgradeError::RegexCompile { expression: "a(".to_string() })
    );
}

#[test]
fn upgrade_is_built_from_the_chart_of_the_release() {
    let upgrade = HelmUpgrade::default(&opts());
    assert_eq!(upgrade.chart_variant, HelmChartVariant::Umbrella);
    assert_eq!(upgrade.release_name, "mayastor");
    assert_eq!(upgrade.client, HelmClient { namespace: "storage".to_string() });

    let built = HelmUpgrade::default(&opts())
        .build(vec![release("etcd", "etcd-1.0.0"), release("mayastor", "core-2.1.0")])
        .unwrap();
    assert_eq!(built.chart_variant, HelmChartVariant::Core);
    assert_eq!(built.release_name, "mayastor");

    let built = HelmUpgrade::default(&opts()).build(vec![release("mayastor", "mayastor-2.1.0")]);
    assert_eq!(built.map(|upgrade| upgrade.chart_variant), Ok(HelmChartVariant::Umbrella));

    let built = HelmUpgrade::default(&opts()).build(vec![release("mayastor", "openebs-3.0.0")]);
    assert_eq!(
        built,
        Err(UpgradeError::NoInputHelmChartDir { chart_name: "openebs-3.0.0".to_string() })
    );
}

fn upgrade_of(chart_variant: HelmChartVariant) -> HelmUpgrade {
    HelmUpgrade { chart_variant, ..HelmUpgrade::default(&opts()) }
}

#[test]
fn chart_directory_is_the_one_given_for_the_chart() {
    let umbrella = Some("/u".to_string());
    let core = Some("/c".to_string());
    assert_eq!(
        upgrade_of(HelmChartVariant::Umbrella).chart_dir(umbrella.clone(), core.clone()),
        Ok("/u".to_string())
    );
    assert_eq!(
        upgrade_of(HelmChartVariant::Core).chart_dir(umbrella.clone(), core.clone()),
        Ok("/c".to_string())
    );
    assert_eq!(
        upgrade_of(HelmChartVariant::Umbrella).chart_dir(None, core),
        Err(UpgradeError::NoInputHelmChartDir { chart_name: "mayastor".to_string() })
    );
    assert_eq!(
        upgrade_of(HelmChartVariant::Core).chart_dir(umbrella, None),
        Err(UpgradeError::NoInputHelmChartDir { chart_name: "core".to_string() })
    );
}

#[test]
fn image_tag_is_looked_up_under_the_chart_of_the_product() {
    assert_eq!(HelmChartVariant::Umbrella.image_tag_keys_list(), strings(&["core", "image", "tag"]));
    assert_eq!(HelmChartVariant::Core.image_tag_keys_list(), strings(&["image", "tag"]));
    assert_eq!(HelmChartVariant::Umbrella.image_tag_path_text(), ".core.image.tag");
    assert_eq!(HelmChartVariant::Core.image_tag_path_text(), ".image.tag");
    assert_eq!(HelmChartVariant::Umbrella.name(), "mayastor");
    assert_eq!(HelmChartVariant::Core.name(), "core");
    assert!(HelmChartVariant::Core.is_name(&"core".to_string()));
    assert!(!HelmChartVariant::Core.is_name(&"mayastor".to_string()));
}

const UMBRELLA_VALUES: &[u8] = b"etcd:\n  replicaCount: 3\ncore:\n  image:\n    registry: docker.io\n    tag: v2.0.0\nimage:\n  tag: not-this-one\n";
const CORE_VALUES: &[u8] = b"image:\n  registry: docker.io\n  repo: openebs\n  tag: develop\n  pullPolicy: Always\n";

fn tag_of(variant: HelmChartVariant, values: &[u8]) -> Result<String, UpgradeError> {
    upgrade_of(variant).image_tag("/chart/values.yaml".to_string(), values)
}

#[test]
fn image_tag_is_read_from_the_values_of_the_chart() {
    assert_eq!(tag_of(HelmChartVariant::Umbrella, UMBRELLA_VALUES), Ok("v2.0.0".to_string()));
    assert_eq!(tag_of(HelmChartVariant::Core, UMBRELLA_VALUES), Ok("not-this-one".to_string()));
    assert_eq!(tag_of(HelmChartVariant::Core, CORE_VALUES), Ok("develop".to_string()));
    assert_eq!(tag_of(HelmChartVariant::Core, b"{image: {tag: 'v1'}}"), Ok("v1".to_string()));
}

#[test]
fn missing_image_tag_names_its_path() {
    let missing_in_umbrella =
        Err(UpgradeError::YamlStructure { yaml_path: ".core.image.tag".to_string() });
    assert_eq!(tag_of(HelmChartVariant::Umbrella, CORE_VALUES), missing_in_umbrella);
    assert_eq!(tag_of(HelmChartVariant::Umbrella, b""), missing_in_umbrella);
    assert_eq!(tag_of(HelmChartVariant::Umbrella, b"core: [image, tag]"), missing_in_umbrella);
    let missing_in_core = Err(UpgradeError::YamlStructure { yaml_path: ".image.tag".to_string() });
    assert_eq!(tag_of(HelmChartVariant::Core, b"image:\n  repo: openebs\n"), missing_in_core);
    // A tag that is a number is no string.
    assert_eq!(tag_of(HelmChartVariant::Core, b"image:\n  tag: 2\n"), missing_in_core);
    assert_eq!(tag_of(HelmChartVariant::Core, b"image:\n  tag:\n    - v2\n"), missing_in_core);
    assert_eq!(tag_of(HelmChartVariant::Core, b"just a string"), missing_in_core);
}

#[test]
fn values_that_are_no_yaml_name_their_file() {
    let unparsed = Err(UpgradeError::YamlParseFromFile { filepath: "/chart/values.yaml".to_string() });
    assert_eq!(tag_of(HelmChartVariant::Core, b"image: [unclosed"), unparsed);
    assert_eq!(tag_of(HelmChartVariant::Core, b"image:\n\ttag: v2"), unparsed);
    assert_eq!(tag_of(HelmChartVariant::Umbrella, b"a: 1\n---\nb: 2\n"), unparsed);
}

#[test]
fn upgrade_keeps_every_value_but_the_image_tag() {
    assert_eq!(
        upgrade_of(HelmChartVariant::Umbrella).upgrade_flags("v2.0.0"),
        strings(&["--set core.image.tag=v2.0.0", "--reuse-values", "--wait"])
    );
    assert_eq!(
        upgrade_of(HelmChartVariant::Core).upgrade_flags("v2.0.0"),
        strings(&["--set image.tag=v2.0.0", "--reuse-values", "--wait"])
    );
}

#[test]
fn run_gives_the_whole_command_line() {
    assert_eq!(
        upgrade_of(HelmChartVariant::Umbrella).run(
            Some("/charts/umbrella".to_string()),
            None,
            "/charts/umbrella/values.yaml".to_string(),
            UMBRELLA_VALUES
        ),
        Ok(strings(&[
            "upgrade",
            "mayastor",
            "/charts/umbrella",
            "-n",
            "storage",
            "--set core.image.tag=v2.0.0",
            "--reuse-values",
            "--wait",
        ]))
    );
    assert_eq!(
        upgrade_of(HelmChartVariant::Core).run(
            Some("/charts/umbrella".to_string()),
            Some("/charts/core".to_string()),
            "/charts/core/values.yaml".to_string(),
            CORE_VALUES
        ),
        Ok(strings(&[
            "upgrade",
            "mayastor",
            "/charts/core",
            "-n",
            "storage",
            "--set image.tag=develop",
            "--reuse-values",
            "--wait",
        ]))
    );
}

#[test]
fn run_fails_without_chart_directory_or_image_tag() {
    assert_eq!(
        upgrade_of(HelmChartVariant::Core).run(Some("/u".to_string()), None, String::new(), CORE_VALUES),
        Err(UpgradeError::NoInputHelmChartDir { chart_name: "core".to_string() })
    );
    // The chart directory is looked for first.
    assert_eq!(
        upgrade_of(HelmChartVariant::Core).run(Some("/u".to_string()), None, String::new(), b"["),
        Err(UpgradeError::NoInputHelmChartDir { chart_name: "core".to_string() })
    );
    assert_eq!(
        upgrade_of(HelmChartVariant::Umbrella).run(
            Some("/u".to_string()),
            None,
            "/u/values.yaml".to_string(),
            CORE_VALUES
        ),
        Err(UpgradeError::YamlStructure { yaml_path: ".core.image.tag".to_string() })
    );
    assert_eq!(
        upgrade_of(HelmChartVariant::Umbrella).run(
            Some("/u".to_string()),
            None,
            "/u/values.yaml".to_string(),
            b"core: {image"
        ),
        Err(UpgradeError::YamlParseFromFile { filepath: "/u/values.yaml".to_string() })
    );
}
