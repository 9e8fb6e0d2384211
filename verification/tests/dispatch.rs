use synthonyx_kit::error::Error;
use synthonyx_kit::traits::dispatch::Dispatch;
use synthonyx_kit::traits::password::{
    PasswordChecker, PasswordError, PasswordHandler, PasswordHasher,
};

pub struct Doubler(pub u32);

impl Dispatch for Doubler {
    type Output = u32;

    fn call(&self) -> Result<u32, Error> {
        match self.0.checked_mul(2) {
            Some(value) => Ok(value),
            None => Err(Error::DispatchError {
                module: "doubler",
                error: "overflow".to_string(),
            }),
        }
    }
}

pub struct Plain;

impl PasswordHasher for Plain {
    type Password = String;

    fn hash(&self, password: String) -> Result<(), PasswordError> {
        if password.is_empty() {
            Err(PasswordError::Hashing("empty".to_string()))
        } else {
            Ok(())
        }
    }
}

impl PasswordChecker for Plain {
    type Password = String;

    fn verify(&self, password: String) -> Result<bool, PasswordError> {
        Ok(password == "open sesame")
    }
}

impl PasswordHandler for Plain {}

fn check_with<H>(handler: &H, password: &str) -> bool
where
    H: PasswordHandler + PasswordChecker<Password = String> + PasswordHasher<Password = String>,
{
    PasswordHasher::hash(handler, password.to_string()).is_ok()
        && PasswordChecker::verify(handler, password.to_string()).unwrap()
}

#[test]
fn dispatch_returns_the_output() {
    assert_eq!(Doubler(21).call().unwrap(), 42);
}

#[test]
fn dispatch_reports_the_failing_module() {
    let err = Doubler(u32::MAX).call().unwrap_err();
    assert_eq!(
        err.to_string(),
        "Module 'doubler' failed to dispatch with error: overflow"
    );
}

#[test]
fn handler_combines_hashing_and_checking() {
    assert!(check_with(&Plain, "open sesame"));
    assert!(!check_with(&Plain, "closed"));
    assert!(matches!(
        Plain.hash(String::new()),
        Err(PasswordError::Hashing(text)) if text == "empty"
    ));
}
