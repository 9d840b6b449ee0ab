use provision::errors::Failure;
use provision::models::{ModelCore, ModelExtensions};
use provision::settings::plugins::Plugin;
use provision::target::ChooseHash;

fn s(x: &str) -> String {
    String::from(x)
}

struct StubResolver;

impl ModelCore for StubResolver {
    fn get_link(
        _core: &provision::config::Core,
    ) -> Result<(String, ChooseHash, String), Failure> {
        Ok((s("https://example.invalid/server.jar"), ChooseHash::Md5(s("d4")), s("100")))
    }

    fn find_version(version: Option<&str>) -> Result<String, Failure> {
        match version {
            Some(v) => Ok(s(v)),
            None => Ok(s("Latest")),
        }
    }
}

impl ModelExtensions for StubResolver {
    fn get_link(
        name: &str,
        _plugin: &Plugin,
        _game_version: Option<&str>,
    ) -> Result<(String, ChooseHash, String), Failure> {
        if name == "known" {
            Ok((s("https://example.invalid/known.jar"), ChooseHash::Sha256(s("aa")), s("7")))
        } else {
            Err(Failure::Resolution(s("no such plugin")))
        }
    }
}

#[test]
fn core_resolver_port_is_implementable() {
    let c = provision::config::Core::default();
    let (link, _, build) = <StubResolver as ModelCore>::get_link(&c).unwrap();
    assert_eq!(link, s("https://example.invalid/server.jar"));
    assert_eq!(build, s("100"));
    assert_eq!(<StubResolver as ModelCore>::find_version(None).unwrap(), s("Latest"));
    assert_eq!(<StubResolver as ModelCore>::find_version(Some("1.20")).unwrap(), s("1.20"));
}

#[test]
fn plugin_resolver_port_reports_failures() {
    let p = Plugin::new(s("c"), s("1.20"), false, false);
    let ok = <StubResolver as ModelExtensions>::get_link("known", &p, Some("1.20"));
    assert!(ok.is_ok());
    let err = <StubResolver as ModelExtensions>::get_link("missing", &p, None);
    assert_eq!(err, Err(Failure::Resolution(s("no such plugin"))));
}
