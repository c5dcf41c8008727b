# cd_rhdl

The logic of a small microprogrammed 16-bit CPU, written as synchronous
kernels over plain values and verified with Verus.

* `decode_unit` – the instruction decoder: classes, operations, addressing
  modes (`mod`/`rm`), jump conditions; `decode` is proved equal to the
  decoding table `decoded`.
* `register_file`, `register` – the eight general registers and a single bus
  register, with their read/write behaviour.
* `control_unit` – the control unit's state machine. Each stage of the
  microprogram (fetch, effective address, immediate, operand loading,
  execution, control flow without effective address, store, PC increment)
  has a specification table, and `control_unit` is proved equal to `cu_step`.
* `control_laws` – properties of every cycle (one bus driver at a time,
  memory writes addressed, IR written only by fetch, phase-end lines) and
  the proof that every instruction ends within a bounded number of cycles.
* `alu`, `clocking`, `io_unit`, `cpu` – the signal types shared by the units,
  and `hex`, the display format of register values.
