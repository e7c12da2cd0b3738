# uify

A latency-first motion-tracking engine, split in two crates:

- `src/` — the verified library (Verus). Host-monotonic timestamps, the
  bookkeeping shared by streaming trackers (step lengths, reset to the
  construction-time filter), the pipeline-stage and Lie-group traits, the
  synthetic camera and constant-output inference used by offline pipelines,
  and the single-producer / single-consumer ring (built on `rtrb`) that
  bridges the vision and audio threads.
- `app/` — the program around it: floating-point geometry (SO(2), SE(2),
  SO(3), SE(3)), the Kalman and manifold EKF filters, the point, bounding-box
  and plane trackers, the OSC/UDP transport, the C ABI export, and the
  end-to-end demo pipeline.

`tests/` exercises the library from outside.
