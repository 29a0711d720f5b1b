# hanzo_vm

The verified core of the Hanzo L2 virtual machine, written in Verus.

- `src/address.rs`: the precompile address space.
- `src/gas.rs`: the canonical input-based AI gas schedule.
- `src/text.rs`: model-name decoding and decimal rendering over std.
- `src/outcome.rs`: precompile results, and the requests a call can wait on.
- `src/precompiles.rs`: calldata decoding and result shaping of each precompile.
- `src/registry.rs`: the address-keyed precompile registry.
- `src/interpreter.rs`: how an AI precompile call settles its gas with the EVM.
- `src/bytecode.rs`: contract bytecode fixtures.
- `src/pricing.rs`: the integer side of compute-job pricing.
- `src/laws.rs`: properties spanning several functions.
- `app/`: the outside services (ML-DSA, the Lux precompile library, the
  inference engine), the revm integration, and floating-point pricing.
