//! Contract records and the virtual machine.

use tribechain::contracts::{
    Contract, ContractCall, ContractDeployment, ContractType, MethodSignature, Parameter,
    ParameterType,
};
use tribechain::vm::{ContractVM, VMState};

#[test]
fn test_contract_creation() {
    let contract = Contract::new(
        "0x123".to_string(),
        ContractType::Token,
        vec![1, 2, 3],
        vec![],
        "deployer".to_string(),
    );

    assert_eq!(contract.address, "0x123");
    assert_eq!(contract.contract_type, ContractType::Token);
    assert_eq!(contract.deployer, "deployer");
    assert!(contract.is_callable());
}

#[test]
fn test_contract_pause_resume() {
    let mut contract = Contract::new(
        "0x123".to_string(),
        ContractType::Token,
        vec![1, 2, 3],
        vec![],
        "owner".to_string(),
    );

    assert!(contract.pause("owner").is_ok());
    assert!(!contract.is_callable());

    assert!(contract.resume("owner").is_ok());
    assert!(contract.is_callable());

    assert!(contract.pause("other").is_err());
}

#[test]
fn test_contract_deployment() {
    let deployment = ContractDeployment::new(
        ContractType::Token,
        vec![1, 2, 3],
        "deployer".to_string(),
    )
    .with_gas_limit(1000000)
    .with_value(100);

    assert_eq!(deployment.contract_type, ContractType::Token);
    assert_eq!(deployment.gas_limit, Some(1000000));
    assert_eq!(deployment.value, 100);
    assert!(deployment.validate().is_ok());
}

#[test]
fn test_contract_call() {
    let call = ContractCall::new(
        "0x123".to_string(),
        "transfer".to_string(),
        vec![1, 2, 3],
        "caller".to_string(),
    )
    .with_value(100)
    .with_gas_limit(50000);

    assert_eq!(call.contract_address, "0x123");
    assert_eq!(call.method, "transfer");
    assert_eq!(call.value, 100);
    assert_eq!(call.gas_limit, Some(50000));
    assert!(call.validate().is_ok());
}

#[test]
fn test_method_signature() {
    let method = MethodSignature::new(
        "transfer".to_string(),
        vec![
            Parameter::new("to".to_string(), ParameterType::Address),
            Parameter::new("amount".to_string(), ParameterType::Uint256),
        ],
        vec![Parameter::new("success".to_string(), ParameterType::Bool)],
    )
    .payable()
    .with_gas_estimate(21000);

    assert_eq!(method.name, "transfer");
    assert!(method.is_payable);
    assert!(!method.is_view);
    assert_eq!(method.gas_estimate, 21000);
}

#[test]
fn test_contract_interface_support() {
    let token_contract = Contract::new(
        "0x123".to_string(),
        ContractType::Token,
        vec![1, 2, 3],
        vec![],
        "deployer".to_string(),
    );

    assert!(token_contract.supports_interface("ERC20"));
    assert!(!token_contract.supports_interface("ERC721"));
    assert!(!token_contract.supports_interface("Staking"));
}

#[test]
fn test_vm_creation() {
    let vm = ContractVM::new();
    assert_eq!(vm.state, VMState::Ready);
    assert_eq!(vm.gas_used, 0);
    assert_eq!(vm.call_depth, 0);
}

#[test]
fn test_gas_consumption() {
    let mut vm = ContractVM::new();
    vm.gas_limit = 1000;

    assert!(vm.consume_gas(500));
    assert_eq!(vm.gas_used, 500);

    assert!(vm.consume_gas(400));
    assert_eq!(vm.gas_used, 900);

    assert!(!vm.consume_gas(200));
    assert_eq!(vm.state, VMState::OutOfGas);
}

#[test]
fn test_vm_reset() {
    let mut vm = ContractVM::new();
    vm.gas_used = 1000;
    vm.state = VMState::Running;
    vm.call_depth = 5;

    vm.reset();

    assert_eq!(vm.state, VMState::Ready);
    assert_eq!(vm.gas_used, 0);
    assert_eq!(vm.call_depth, 0);
    assert!(vm.execution_stack.is_empty());
}

#[test]
fn test_vm_deploy_and_call() {
    let mut vm = ContractVM::new();
    let deployment = ContractDeployment::new(
        ContractType::Token,
        vec![1, 2, 3],
        "deployer".to_string(),
    );
    let address = vm.deploy(deployment).unwrap();
    assert_eq!(address.len(), 40);
    assert_eq!(vm.get_stats().contracts_deployed, 1);

    let contract = Contract::new(
        address.clone(),
        ContractType::Token,
        vec![1, 2, 3],
        vec![],
        "deployer".to_string(),
    );
    let call = ContractCall::new(
        address,
        "transfer".to_string(),
        vec![],
        "caller".to_string(),
    );
    let result = vm.call(&contract, call).unwrap();
    assert!(result.success);
    assert_eq!(result.gas_used, 21000);

    let empty = ContractDeployment::new(ContractType::Token, vec![], "deployer".to_string());
    assert!(vm.deploy(empty).is_err());
}
